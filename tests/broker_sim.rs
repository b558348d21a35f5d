use std::collections::{HashMap, VecDeque};

use sb_explorer::error::ServiceBusError;
use sb_explorer::locate::{DlqLocator, LocateStep, DEFAULT_MAX_SCAN};
use sb_explorer::models::{BrokerProperties, ReceivedMessage};
use sb_explorer::peek::{PeekSession, PeekStep};
use sb_explorer::resend::{ResendAction, ResendOutcome, ResendRun};

/// An in-memory entity: available messages in delivery order, and locked
/// ones by lock URI. Abandoned messages go back to the end.
struct Entity {
    available: VecDeque<ReceivedMessage>,
    locked: HashMap<String, ReceivedMessage>,
    next_lock: u64,
}

fn message(seq: i64) -> ReceivedMessage {
    let mut props = BrokerProperties::default();
    props.sequence_number = Some(seq);
    props.delivery_count = Some(0);
    props.message_id = Some(format!("id-{}", seq));
    props.enqueued_sequence_number = Some(seq);
    ReceivedMessage {
        body: format!("body {}", seq),
        broker_properties: props,
        custom_properties: vec![(String::from("k"), format!("v{}", seq))],
        lock_token_uri: None,
    }
}

impl Entity {
    fn with(seqs: &[i64]) -> Entity {
        Entity { available: seqs.iter().map(|s| message(*s)).collect(), locked: HashMap::new(), next_lock: 0 }
    }
    fn lock(&mut self) -> Option<ReceivedMessage> {
        let mut m = self.available.pop_front()?;
        let dc = m.broker_properties.delivery_count.unwrap_or(0);
        m.broker_properties.delivery_count = Some(dc + 1);
        let uri = format!("lock-{}", self.next_lock);
        self.next_lock += 1;
        self.locked.insert(uri.clone(), m.clone());
        m.lock_token_uri = Some(uri);
        Some(m)
    }
    fn abandon(&mut self, uri: &str) {
        if let Some(m) = self.locked.remove(uri) {
            self.available.push_back(m);
        }
    }
    fn complete(&mut self, uri: &str) -> bool {
        self.locked.remove(uri).is_some()
    }
    fn seqs(&self) -> Vec<i64> {
        self.available.iter().map(|m| m.broker_properties.sequence_number.unwrap()).collect()
    }
    fn counts(&self) -> Vec<i32> {
        self.available.iter().map(|m| m.broker_properties.delivery_count.unwrap()).collect()
    }
}

fn run_peek(e: &mut Entity, n: i32) -> Vec<ReceivedMessage> {
    let mut session: PeekSession<ReceivedMessage> = PeekSession::new(n);
    loop {
        match session.next_step() {
            PeekStep::Lock => match e.lock() {
                Some(m) => {
                    let lock = m.lock_token_uri.clone();
                    session.on_locked(m.without_lock(), lock);
                }
                None => session.on_empty(),
            },
            PeekStep::Abandon(uri) => {
                e.abandon(&uri);
                session.on_abandoned();
            }
            PeekStep::Finish => return session.finish().unwrap(),
        }
    }
}

#[test]
fn peek_returns_available_and_restores_them() {
    let mut e = Entity::with(&[1, 2, 3]);
    let first = run_peek(&mut e, 10);
    assert_eq!(first.len(), 3);
    assert!(first.iter().all(|m| m.lock_token_uri.is_none()));
    assert_eq!(e.seqs(), vec![1, 2, 3]);
    assert_eq!(e.counts(), vec![1, 1, 1]);
    assert!(e.locked.is_empty());
    let second = run_peek(&mut e, 10);
    let s1: Vec<i64> = first.iter().map(|m| m.broker_properties.sequence_number.unwrap()).collect();
    let s2: Vec<i64> = second.iter().map(|m| m.broker_properties.sequence_number.unwrap()).collect();
    assert_eq!(s1, s2);
    assert_eq!(e.counts(), vec![2, 2, 2]);
}

#[test]
fn peek_stops_at_requested_count() {
    let mut e = Entity::with(&[1, 2, 3, 4, 5]);
    let got = run_peek(&mut e, 2);
    assert_eq!(got.len(), 2);
    assert_eq!(e.available.len(), 5);
    assert!(run_peek(&mut Entity::with(&[]), 5).is_empty());
    assert!(run_peek(&mut Entity::with(&[1]), -3).is_empty());
}

#[test]
fn peek_lock_failure_releases_and_fails() {
    let mut e = Entity::with(&[1, 2]);
    let mut session: PeekSession<ReceivedMessage> = PeekSession::new(5);
    let m = e.lock().unwrap();
    let lock = m.lock_token_uri.clone();
    session.on_locked(m, lock);
    session.on_lock_failed(ServiceBusError::Http(String::from("timeout")));
    match session.next_step() {
        PeekStep::Abandon(uri) => {
            e.abandon(&uri);
            session.on_abandoned();
        }
        other => panic!("unexpected step {:?}", other),
    }
    assert!(matches!(session.next_step(), PeekStep::Finish));
    assert!(matches!(session.finish(), Err(ServiceBusError::Http(_))));
    assert_eq!(e.available.len(), 2);
}

fn run_locate(e: &mut Entity, target: i64, max_scan: u32) -> (Result<bool, ServiceBusError>, u32) {
    let mut loc = DlqLocator::new(target, max_scan);
    let mut abandoned = 0u32;
    loop {
        match loc.next_step() {
            LocateStep::Lock => match e.lock() {
                Some(m) => loc.on_locked(m.broker_properties.sequence_number, m.lock_token_uri),
                None => loc.on_empty(),
            },
            LocateStep::Complete(uri) => {
                let ok = e.complete(&uri);
                loc.on_completed(if ok { Ok(()) } else { Err(ServiceBusError::NotFound(uri)) });
            }
            LocateStep::Abandon(uri) => {
                e.abandon(&uri);
                abandoned += 1;
                loc.on_abandoned();
            }
            LocateStep::Done => return (loc.finish(), abandoned),
        }
    }
}

#[test]
fn remove_by_sequence_finds_and_restores_others() {
    let mut e = Entity::with(&[10, 11, 12, 13, 14]);
    let (r, restored) = run_locate(&mut e, 12, DEFAULT_MAX_SCAN);
    assert!(matches!(r, Ok(true)));
    assert_eq!(restored, 2);
    let mut left = e.seqs();
    left.sort();
    assert_eq!(left, vec![10, 11, 13, 14]);
    assert!(e.locked.is_empty());
}

#[test]
fn remove_by_sequence_absent_changes_nothing() {
    let mut e = Entity::with(&[1, 2, 3]);
    let (r, restored) = run_locate(&mut e, 99, DEFAULT_MAX_SCAN);
    assert!(matches!(r, Ok(false)));
    assert_eq!(restored, 3);
    let mut left = e.seqs();
    left.sort();
    assert_eq!(left, vec![1, 2, 3]);
}

#[test]
fn remove_by_sequence_scans_delivery_order_not_numeric() {
    // 120 messages numbered 1..=120, delivered in an order that puts 57
    // after the first 50: the search gives up although 57 is there.
    let mut order: Vec<i64> = (61..=120).collect();
    order.extend(1..=60);
    let mut e = Entity::with(&order);
    let (r, restored) = run_locate(&mut e, 57, 50);
    assert!(matches!(r, Ok(false)));
    assert_eq!(restored, 50);
    assert_eq!(e.available.len(), 120);
    assert!(e.seqs().contains(&57));
}

#[test]
fn remove_by_sequence_complete_failure_is_an_error() {
    let mut loc = DlqLocator::new(5, 10);
    loc.on_locked(Some(4), Some(String::from("a")));
    loc.on_locked(Some(5), Some(String::from("b")));
    assert!(matches!(loc.next_step(), LocateStep::Complete(ref u) if u == "b"));
    loc.on_completed(Err(ServiceBusError::NotFound(String::from("b"))));
    assert!(matches!(loc.next_step(), LocateStep::Abandon(ref u) if u == "a"));
    loc.on_abandoned();
    assert!(matches!(loc.next_step(), LocateStep::Done));
    assert!(matches!(loc.finish(), Err(ServiceBusError::NotFound(_))));
}

/// Runs a resend from one entity to a destination; `send_ok(i)` and
/// `complete_ok(i)` answer for the i-th message; cancels before locking
/// once `cancel_after` messages are handled.
fn run_resend(
    e: &mut Entity,
    dest: &mut Vec<String>,
    cap: Option<u32>,
    cancel_after: usize,
    send_ok: impl Fn(usize) -> bool,
    complete_ok: impl Fn(usize) -> bool,
) -> ResendOutcome {
    let pairs = vec![(String::from("q/$deadletterqueue"), String::from("q"))];
    let mut run = ResendRun::new(pairs, cap);
    let mut handled = 0usize;
    loop {
        match run.begin(handled >= cancel_after) {
            ResendAction::Lock(path) => {
                assert_eq!(path, "q/$deadletterqueue");
                match e.lock() {
                    None => run.on_empty(),
                    Some(m) => match run.on_locked(&m) {
                        ResendAction::Send(target, out) => {
                            assert_eq!(target, "q");
                            assert_eq!(out.body, m.body);
                            assert_eq!(out.message_id, m.broker_properties.message_id);
                            assert_eq!(out.custom_properties, m.custom_properties);
                            let ok = send_ok(handled);
                            if ok {
                                dest.push(out.body.clone());
                            }
                            match run.on_sent(ok) {
                                ResendAction::Complete(uri) => {
                                    let done = complete_ok(handled) && e.complete(&uri);
                                    if !done {
                                        e.abandon(&uri);
                                    }
                                    run.on_disposed(done);
                                }
                                ResendAction::Abandon(uri) => {
                                    e.abandon(&uri);
                                    run.on_disposed(true);
                                }
                                other => panic!("unexpected action {:?}", other),
                            }
                            handled += 1;
                        }
                        other => panic!("unexpected action {:?}", other),
                    },
                }
            }
            ResendAction::Stop => return run.outcome(),
            other => panic!("unexpected action {:?}", other),
        }
    }
}

#[test]
fn resend_all_succeeding_empties_dead_letters() {
    let mut e = Entity::with(&[1, 2, 3, 4]);
    let mut dest = Vec::new();
    let out = run_resend(&mut e, &mut dest, None, usize::MAX, |_| true, |_| true);
    assert!(matches!(out, ResendOutcome::Completed { resent: 4, errors: 0 }));
    assert!(e.available.is_empty());
    assert_eq!(dest.len(), 4);
}

#[test]
fn resend_cancelled_accounts_for_each_message() {
    let mut e = Entity::with(&[1, 2, 3, 4, 5, 6]);
    let mut dest = Vec::new();
    let out = run_resend(&mut e, &mut dest, None, 4, |i| i != 1, |i| i != 2);
    match out {
        ResendOutcome::Cancelled { resent, errors } => {
            assert_eq!(resent + errors, 4);
            assert_eq!(resent, 2);
            assert_eq!(e.available.len(), 6 - resent as usize);
        }
        other => panic!("unexpected outcome {:?}", other),
    }
}

#[test]
fn resend_respects_cap() {
    let mut e = Entity::with(&[1, 2, 3, 4, 5]);
    let mut dest = Vec::new();
    let out = run_resend(&mut e, &mut dest, Some(2), usize::MAX, |_| true, |_| true);
    assert!(matches!(out, ResendOutcome::Completed { resent: 2, errors: 0 }));
    assert_eq!(e.available.len(), 3);
}

#[test]
fn resend_lock_failure_is_fatal_and_missing_lock_counts_as_error() {
    let mut run = ResendRun::new(vec![(String::from("a/$deadletterqueue"), String::from("a"))], None);
    assert!(matches!(run.begin(false), ResendAction::Lock(_)));
    let no_lock = message(1);
    assert!(matches!(run.on_locked(&no_lock), ResendAction::Continue));
    assert_eq!(run.errors(), 1);
    assert!(matches!(run.begin(false), ResendAction::Lock(_)));
    run.on_lock_failed(ServiceBusError::Auth(String::from("expired")));
    match run.outcome() {
        ResendOutcome::Failed { resent: 0, errors: 1, error: ServiceBusError::Auth(_) } => {}
        other => panic!("unexpected outcome {:?}", other),
    }
}

#[test]
fn resend_progress_every_fifty() {
    let mut e = Entity::with(&(1..=50).collect::<Vec<i64>>());
    let pairs = vec![(String::from("d"), String::from("t"))];
    let mut run = ResendRun::new(pairs, None);
    let mut reports = 0;
    loop {
        match run.begin(false) {
            ResendAction::Lock(_) => match e.lock() {
                None => run.on_empty(),
                Some(m) => {
                    run.on_locked(&m);
                    if let ResendAction::Complete(uri) = run.on_sent(true) {
                        e.complete(&uri);
                        run.on_disposed(true);
                    }
                    if run.progress_due() {
                        reports += 1;
                    }
                }
            },
            _ => break,
        }
    }
    assert_eq!(reports, 1);
    assert_eq!(run.resent(), 50);
}
