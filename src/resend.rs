use vstd::prelude::*;

use crate::error::ServiceBusError;
use crate::models::{sendable_of, ReceivedMessage, ServiceBusMessage};

verus! {

/// Number of handled messages between two progress reports.
pub const RESEND_PROGRESS_STEP: u32 = 50;

/// Where a resend stands.
#[derive(Debug)]
pub enum ResendPhase {
    /// At the top of an iteration: about to check for cancellation and lock.
    Ready,
    /// A message is locked under this URI and its copy is being sent.
    Sending(String),
    /// The copy was sent; the source message is being completed.
    Completing(String),
    /// The send failed; the source message is being abandoned.
    Abandoning(String),
    /// Nothing more will be done.
    Over(ResendEnd),
}

/// Why a resend stopped.
#[derive(Debug)]
pub enum ResendEnd {
    /// Every source path ran dry or reached its cap.
    Finished,
    /// The caller cancelled.
    Cancelled,
    /// Locking a message failed; the batch cannot go on.
    Failed(ServiceBusError),
}

/// What the resend asks of the broker next.
#[derive(Debug)]
pub enum ResendAction {
    /// Lock one message of this dead-letter path.
    Lock(String),
    /// Send this message to this destination.
    Send(String, ServiceBusMessage),
    /// Complete the source message held under this lock.
    Complete(String),
    /// Abandon the source message held under this lock.
    Abandon(String),
    /// Go back to the top of the loop.
    Continue,
    /// The resend is over: call [`ResendRun::outcome`].
    Stop,
}

/// Counts reported when a resend is over.
#[derive(Debug)]
pub enum ResendOutcome {
    Completed { resent: u32, errors: u32 },
    Cancelled { resent: u32, errors: u32 },
    Failed { resent: u32, errors: u32, error: ServiceBusError },
}

/// Moves messages from dead-letter paths to live destinations, one message
/// fully disposed before the next is locked. Each entry of `pairs` is a
/// source dead-letter path and its destination; `cap` bounds how many
/// messages are taken from each source.
pub struct ResendRun {
    pairs: Vec<(String, String)>,
    path: usize,
    cap: Option<u32>,
    on_path: u32,
    resent: u32,
    errors: u32,
    phase: ResendPhase,
}

/// Mathematical picture of a [`ResendRun`].
pub struct ResendView {
    pub pairs: Seq<(String, String)>,
    pub path: nat,
    pub cap: Option<u32>,
    pub on_path: nat,
    pub resent: nat,
    pub errors: nat,
    pub phase: ResendPhase,
}

impl View for ResendRun {
    type V = ResendView;

    closed spec fn view(&self) -> ResendView {
        ResendView {
            pairs: self.pairs@,
            path: self.path as nat,
            cap: self.cap,
            on_path: self.on_path as nat,
            resent: self.resent as nat,
            errors: self.errors as nat,
            phase: self.phase,
        }
    }
}

/// A resend over `pairs` that has done nothing yet.
pub open spec fn resend_start(pairs: Seq<(String, String)>, cap: Option<u32>) -> ResendView {
    ResendView { pairs, path: 0, cap, on_path: 0, resent: 0, errors: 0, phase: ResendPhase::Ready }
}

/// Whether the current path has given all that the cap allows.
pub open spec fn cap_reached(v: ResendView) -> bool {
    match v.cap {
        Some(c) => v.on_path >= c,
        None => false,
    }
}

/// The first path at or after `v.path` that may still give messages.
pub open spec fn skip_capped(v: ResendView) -> ResendView
    decreases v.pairs.len() - v.path,
{
    if v.path < v.pairs.len() && cap_reached(v) {
        skip_capped(ResendView { path: v.path + 1, on_path: 0, ..v })
    } else {
        v
    }
}

/// The top of an iteration: stop if cancelled, otherwise lock from the
/// current path, if one is left.
pub open spec fn begin_spec(v: ResendView, cancelled: bool) -> ResendView {
    if cancelled {
        ResendView { phase: ResendPhase::Over(ResendEnd::Cancelled), ..v }
    } else {
        let w = skip_capped(v);
        if w.path < w.pairs.len() {
            w
        } else {
            ResendView { phase: ResendPhase::Over(ResendEnd::Finished), ..w }
        }
    }
}

/// The resend after a message was locked, under `lock` if the broker gave
/// one; a message without a lock counts as an error.
pub open spec fn resend_on_locked(v: ResendView, lock: Option<String>) -> ResendView {
    match lock {
        Some(uri) => ResendView { phase: ResendPhase::Sending(uri), ..v },
        None => ResendView { errors: v.errors + 1, on_path: v.on_path + 1, ..v },
    }
}

/// The resend after the current source path was found empty.
pub open spec fn resend_on_empty(v: ResendView) -> ResendView {
    ResendView { path: v.path + 1, on_path: 0, ..v }
}

/// The resend after the send of the copy answered `ok`.
pub open spec fn resend_on_sent(v: ResendView, ok: bool) -> ResendView {
    let uri = v.phase->Sending_0;
    if ok {
        ResendView { phase: ResendPhase::Completing(uri), ..v }
    } else {
        ResendView { phase: ResendPhase::Abandoning(uri), ..v }
    }
}

/// The resend after the source message was completed or abandoned; a completion
/// that answered `ok` counts the message as resent, anything else as an
/// error.
pub open spec fn resend_on_disposed(v: ResendView, ok: bool) -> ResendView {
    let resent = v.phase is Completing && ok;
    ResendView {
        resent: if resent {
            v.resent + 1
        } else {
            v.resent
        },
        errors: if resent {
            v.errors
        } else {
            v.errors + 1
        },
        on_path: v.on_path + 1,
        phase: ResendPhase::Ready,
        ..v
    }
}

/// The outcome of a resend that is over.
pub open spec fn resend_outcome_spec(v: ResendView) -> ResendOutcome {
    let resent = v.resent as u32;
    let errors = v.errors as u32;
    match v.phase->Over_0 {
        ResendEnd::Finished => ResendOutcome::Completed { resent, errors },
        ResendEnd::Cancelled => ResendOutcome::Cancelled { resent, errors },
        ResendEnd::Failed(error) => ResendOutcome::Failed { resent, errors, error },
    }
}

/// Bound on the counters so that they stay within `u32`.
pub open spec fn counts_fit(v: ResendView) -> bool {
    v.resent + v.errors < u32::MAX
}

/// A path never gives more messages than the run has handled.
pub open spec fn resend_wf(v: ResendView) -> bool {
    v.on_path <= v.resent + v.errors
}

impl ResendRun {
    /// A resend over the (dead-letter path, destination) pairs, taking at
    /// most `cap` messages from each path when a cap is given.
    pub fn new(pairs: Vec<(String, String)>, cap: Option<u32>) -> (r: ResendRun)
        ensures
            r@ == resend_start(pairs@, cap),
            resend_wf(r@),
    {
        ResendRun { pairs, path: 0, cap, on_path: 0, resent: 0, errors: 0, phase: ResendPhase::Ready }
    }

    /// Messages resent so far.
    pub fn resent(&self) -> (r: u32)
        ensures
            r == self@.resent,
    {
        self.resent
    }

    /// Messages that failed so far.
    pub fn errors(&self) -> (r: u32)
        ensures
            r == self@.errors,
    {
        self.errors
    }

    /// The top of an iteration. Cancellation is checked here, before the
    /// next lock, so no message is ever left half-handled.
    pub fn begin(&mut self, cancelled: bool) -> (r: ResendAction)
        requires
            old(self)@.phase is Ready,
            resend_wf(old(self)@),
        ensures
            final(self)@ == begin_spec(old(self)@, cancelled),
            resend_wf(final(self)@),
            r == (if final(self)@.phase is Over {
                ResendAction::Stop
            } else {
                ResendAction::Lock(final(self)@.pairs[final(self)@.path as int].0)
            }),
    {
        if cancelled {
            self.phase = ResendPhase::Over(ResendEnd::Cancelled);
            return ResendAction::Stop;
        }
        while self.path < self.pairs.len() && self.cap_is_reached()
            invariant
                resend_wf(self@),
                skip_capped(self@) == skip_capped(old(self)@),
                self@.phase == old(self)@.phase,
                self@.resent == old(self)@.resent,
                self@.errors == old(self)@.errors,
                self@.pairs == old(self)@.pairs,
                self@.cap == old(self)@.cap,
            decreases self.pairs@.len() - self.path,
        {
            self.path = self.path + 1;
            self.on_path = 0;
        }
        if self.path < self.pairs.len() {
            ResendAction::Lock(self.pairs[self.path].0.clone())
        } else {
            self.phase = ResendPhase::Over(ResendEnd::Finished);
            ResendAction::Stop
        }
    }

    fn cap_is_reached(&self) -> (r: bool)
        ensures
            r == cap_reached(self@),
    {
        match self.cap {
            Some(c) => self.on_path >= c,
            None => false,
        }
    }

    /// Records a locked message. With a lock, its copy (see
    /// [`ReceivedMessage::to_sendable`]) goes to the current destination;
    /// without one it counts as an error and the loop goes on.
    pub fn on_locked(&mut self, msg: &ReceivedMessage) -> (r: ResendAction)
        requires
            old(self)@.phase is Ready,
            old(self)@.path < old(self)@.pairs.len(),
            counts_fit(old(self)@),
            resend_wf(old(self)@),
        ensures
            final(self)@ == resend_on_locked(old(self)@, msg.lock_token_uri),
            resend_wf(final(self)@),
            msg.lock_token_uri is Some ==> r is Send && r->Send_0 == old(self)@.pairs[old(
                self,
            )@.path as int].1 && sendable_of(*msg, r->Send_1),
            msg.lock_token_uri is None ==> r == ResendAction::Continue,
    {
        match &msg.lock_token_uri {
            Some(uri) => {
                self.phase = ResendPhase::Sending(uri.clone());
                let out = msg.to_sendable();
                ResendAction::Send(self.pairs[self.path].1.clone(), out)
            },
            None => {
                self.errors = self.errors + 1;
                self.on_path = self.on_path + 1;
                ResendAction::Continue
            },
        }
    }

    /// Records that the current source path has nothing left.
    pub fn on_empty(&mut self)
        requires
            old(self)@.phase is Ready,
            old(self)@.path < old(self)@.pairs.len(),
        ensures
            final(self)@ == resend_on_empty(old(self)@),
            resend_wf(final(self)@),
    {
        let n = self.pairs.len();
        assert(self.path < n);
        self.path = self.path + 1;
        self.on_path = 0;
    }

    /// Records a failed lock, which ends the batch.
    pub fn on_lock_failed(&mut self, e: ServiceBusError)
        requires
            old(self)@.phase is Ready,
        ensures
            final(self)@ == (ResendView { phase: ResendPhase::Over(ResendEnd::Failed(e)), ..old(self)@ }),
    {
        self.phase = ResendPhase::Over(ResendEnd::Failed(e));
    }

    /// Records the answer to sending the copy: on success the source message is
    /// completed, on failure it is abandoned.
    pub fn on_sent(&mut self, ok: bool) -> (r: ResendAction)
        requires
            old(self)@.phase is Sending,
        ensures
            final(self)@ == resend_on_sent(old(self)@, ok),
            r == (if ok {
                ResendAction::Complete(old(self)@.phase->Sending_0)
            } else {
                ResendAction::Abandon(old(self)@.phase->Sending_0)
            }),
    {
        let uri = match &self.phase {
            ResendPhase::Sending(u) => u.clone(),
            _ => String::new(),
        };
        if ok {
            self.phase = ResendPhase::Completing(uri.clone());
            ResendAction::Complete(uri)
        } else {
            self.phase = ResendPhase::Abandoning(uri.clone());
            ResendAction::Abandon(uri)
        }
    }

    /// Records the answer to completing or abandoning the source message. A failed
    /// completion leaves the source message dead-lettered while its copy exists at
    /// the destination; it is counted as an error.
    pub fn on_disposed(&mut self, ok: bool)
        requires
            old(self)@.phase is Completing || old(self)@.phase is Abandoning,
            counts_fit(old(self)@),
            resend_wf(old(self)@),
        ensures
            final(self)@ == resend_on_disposed(old(self)@, ok),
            resend_wf(final(self)@),
    {
        let resent = match &self.phase {
            ResendPhase::Completing(_) => ok,
            _ => false,
        };
        if resent {
            self.resent = self.resent + 1;
        } else {
            self.errors = self.errors + 1;
        }
        self.on_path = self.on_path + 1;
        self.phase = ResendPhase::Ready;
    }

    /// Whether a progress report is due: after every full step of handled
    /// messages.
    pub fn progress_due(&self) -> (r: bool)
        ensures
            r == ((self@.resent + self@.errors) as int % (RESEND_PROGRESS_STEP as int) == 0),
    {
        (self.resent as u64 + self.errors as u64) % (RESEND_PROGRESS_STEP as u64) == 0
    }

    /// The counts, and how the resend ended.
    pub fn outcome(self) -> (r: ResendOutcome)
        requires
            self@.phase is Over,
        ensures
            r == resend_outcome_spec(self@),
    {
        match self.phase {
            ResendPhase::Over(ResendEnd::Finished) => ResendOutcome::Completed {
                resent: self.resent,
                errors: self.errors,
            },
            ResendPhase::Over(ResendEnd::Cancelled) => ResendOutcome::Cancelled {
                resent: self.resent,
                errors: self.errors,
            },
            ResendPhase::Over(ResendEnd::Failed(error)) => ResendOutcome::Failed {
                resent: self.resent,
                errors: self.errors,
                error,
            },
            _ => ResendOutcome::Completed { resent: self.resent, errors: self.errors },
        }
    }
}

/// The answers the broker gives for one message: whether the send
/// succeeded, and whether the completion of the source message succeeded.
pub struct MessageAnswers {
    pub send_ok: bool,
    pub complete_ok: bool,
}

/// One full iteration on a locked message: send, then complete or abandon.
pub open spec fn resend_iteration(v: ResendView, lock: String, a: MessageAnswers) -> ResendView {
    let sent = resend_on_sent(resend_on_locked(v, Some(lock)), a.send_ok);
    resend_on_disposed(sent, a.send_ok && a.complete_ok)
}

/// A resend from one dead-letter path holding `dlq` messages, where the
/// `i`-th message is locked under `locks[i]` and answered by `answers[i]`,
/// and the caller cancels once `cancel_after` messages have been handled.
/// Returns the resend and the number of messages left dead-lettered.
pub open spec fn resend_drive(
    v: ResendView,
    dlq: nat,
    locks: Seq<String>,
    answers: Seq<MessageAnswers>,
    cancel_after: nat,
    i: nat,
) -> (ResendView, nat)
    decreases answers.len() - i,
{
    let w = begin_spec(v, i >= cancel_after);
    if w.phase is Over {
        (w, dlq)
    } else if dlq == 0 {
        let x = resend_on_empty(w);
        (begin_spec(x, i >= cancel_after), dlq)
    } else if i >= answers.len() || i >= locks.len() {
        (w, dlq)
    } else {
        let a = answers[i as int];
        let left = if a.send_ok && a.complete_ok {
            (dlq - 1) as nat
        } else {
            dlq
        };
        resend_drive(resend_iteration(w, locks[i as int], a), left, locks, answers, cancel_after, i + 1)
    }
}

/// The number of answers among the first `k` in which both the send and the
/// completion succeeded.
pub open spec fn resent_among(answers: Seq<MessageAnswers>, k: int) -> nat
    decreases k,
{
    if k <= 0 {
        0
    } else {
        resent_among(answers, k - 1) + if answers[k - 1].send_ok && answers[k - 1].complete_ok {
            1nat
        } else {
            0nat
        }
    }
}

proof fn lemma_drive(
    v: ResendView,
    dlq0: nat,
    dlq: nat,
    locks: Seq<String>,
    answers: Seq<MessageAnswers>,
    cancel_after: nat,
    i: nat,
)
    requires
        v.pairs.len() == 1,
        v.cap is None,
        v.path == 0,
        v.phase is Ready,
        v.resent == resent_among(answers, i as int),
        v.resent + v.errors == i,
        dlq == dlq0 - v.resent,
        v.resent <= dlq0,
        i <= cancel_after,
        cancel_after <= answers.len(),
        cancel_after <= locks.len(),
    ensures
        ({
            let (r, left) = resend_drive(v, dlq, locks, answers, cancel_after, i);
            &&& r.phase is Over
            &&& r.resent + r.errors <= cancel_after
            &&& left == dlq0 - r.resent
            &&& r.resent == resent_among(answers, (r.resent + r.errors) as int)
            &&& dlq0 >= cancel_after ==> r.resent + r.errors == cancel_after && r.phase
                == ResendPhase::Over(ResendEnd::Cancelled)
        }),
    decreases answers.len() - i,
{
    let w = begin_spec(v, i >= cancel_after);
    assert(skip_capped(v) == v);
    if w.phase is Over {
    } else if dlq == 0 {
        let x = resend_on_empty(w);
        assert(skip_capped(x) == x);
    } else {
        let a = answers[i as int];
        let w2 = resend_iteration(w, locks[i as int], a);
        let left = if a.send_ok && a.complete_ok {
            (dlq - 1) as nat
        } else {
            dlq
        };
        assert(resent_among(answers, i + 1 as int) == resent_among(answers, i as int) + if a.send_ok
            && a.complete_ok {
            1nat
        } else {
            0nat
        });
        lemma_drive(w2, dlq0, left, locks, answers, cancel_after, i + 1);
    }
}

/// Resending `k` dead-lettered messages from one path with no cap, every
/// send and completion succeeding and no cancellation, resends all `k` with
/// no error and leaves the dead-letter path empty.
pub proof fn resend_all_succeed(
    pair: (String, String),
    k: nat,
    locks: Seq<String>,
    answers: Seq<MessageAnswers>,
    cancel_after: nat,
)
    requires
        answers.len() == k,
        locks.len() == k,
        cancel_after > k,
        forall|i: int| 0 <= i < k ==> (#[trigger] answers[i]).send_ok && answers[i].complete_ok,
    ensures
        ({
            let (r, left) = resend_drive(resend_start(seq![pair], None), k, locks, answers, cancel_after, 0);
            &&& r.phase == ResendPhase::Over(ResendEnd::Finished)
            &&& r.resent == k
            &&& r.errors == 0
            &&& left == 0
        }),
{
    lemma_all_succeed(resend_start(seq![pair], None), k, locks, answers, cancel_after, 0);
}

proof fn lemma_all_succeed(
    v: ResendView,
    k: nat,
    locks: Seq<String>,
    answers: Seq<MessageAnswers>,
    cancel_after: nat,
    i: nat,
)
    requires
        answers.len() == k,
        locks.len() == k,
        cancel_after > k,
        i <= k,
        forall|j: int| 0 <= j < k ==> (#[trigger] answers[j]).send_ok && answers[j].complete_ok,
        v.pairs.len() == 1,
        v.cap is None,
        v.path == 0,
        v.phase is Ready,
        v.resent == i,
        v.errors == 0,
    ensures
        ({
            let (r, left) = resend_drive(v, (k - i) as nat, locks, answers, cancel_after, i);
            &&& r.phase == ResendPhase::Over(ResendEnd::Finished)
            &&& r.resent == k
            &&& r.errors == 0
            &&& left == 0
        }),
    decreases k - i,
{
    let w = begin_spec(v, i >= cancel_after);
    assert(skip_capped(v) == v);
    if i == k {
        let x = resend_on_empty(w);
        assert(skip_capped(x) == x);
    } else {
        let w2 = resend_iteration(w, locks[i as int], answers[i as int]);
        assert(answers[i as int].send_ok && answers[i as int].complete_ok);
        lemma_all_succeed(w2, k, locks, answers, cancel_after, i + 1);
    }
}

/// A resend cancelled once `c` messages have been fully handled, from a
/// dead-letter path holding at least `c` messages, stops with resent plus
/// errors equal to `c`, and the path holds its initial number less the
/// number resent, whatever the broker answered for each message.
pub proof fn resend_cancel_accounts_every_message(
    pair: (String, String),
    initial: nat,
    locks: Seq<String>,
    answers: Seq<MessageAnswers>,
    c: nat,
)
    requires
        initial >= c,
        answers.len() >= c,
        locks.len() >= c,
    ensures
        ({
            let (r, left) = resend_drive(resend_start(seq![pair], None), initial, locks, answers, c, 0);
            &&& r.phase == ResendPhase::Over(ResendEnd::Cancelled)
            &&& r.resent + r.errors == c
            &&& r.resent == resent_among(answers, c as int)
            &&& left == initial - r.resent
        }),
{
    lemma_drive(resend_start(seq![pair], None), initial, initial, locks, answers, c, 0);
}

proof fn lemma_resent_among_prefix(answers: Seq<MessageAnswers>, c: int, k: int)
    requires
        0 <= k <= c <= answers.len(),
    ensures
        resent_among(answers.take(c), k) == resent_among(answers, k),
    decreases k,
{
    if k > 0 {
        lemma_resent_among_prefix(answers, c, k - 1);
    }
}

} // verus!
