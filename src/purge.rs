use vstd::prelude::*;

use crate::error::ServiceBusError;

verus! {

/// Number of deletions between two relayed progress reports.
pub const PROGRESS_STEP: u64 = 50;

/// What one receive-and-delete call came back with.
#[derive(Debug)]
pub enum ReceiveResult {
    /// A message was read and permanently removed.
    Deleted,
    /// Nothing was available within the wait budget.
    Empty,
    /// The call failed.
    Failed(ServiceBusError),
}

/// The state that the workers of one purge share: how many messages were
/// deleted, whether the workers must stop, and the first error seen.
pub struct PurgeTally {
    count: u64,
    done: bool,
    first_error: Option<ServiceBusError>,
}

/// Mathematical picture of a [`PurgeTally`].
pub struct TallyView {
    pub count: nat,
    pub done: bool,
    pub first_error: Option<ServiceBusError>,
}

/// How a purge of one path ended.
#[derive(Debug)]
pub enum PurgeOutcome {
    /// The entity was drained; the number of messages deleted.
    Completed(u64),
    /// The caller cancelled; the number deleted before the workers stopped.
    Cancelled(u64),
    /// A worker failed; the number deleted, and the first error seen.
    Failed(u64, ServiceBusError),
}

/// The next step of a purge that spans several paths.
#[derive(Debug)]
pub enum PathStep {
    /// Purge the next path; the running total so far.
    Next(u64),
    /// Stop here and report this outcome, whose count is the running total.
    Stop(PurgeOutcome),
}

impl View for PurgeTally {
    type V = TallyView;

    closed spec fn view(&self) -> TallyView {
        TallyView { count: self.count as nat, done: self.done, first_error: self.first_error }
    }
}

/// The tally before any worker has reported.
pub open spec fn initial_tally() -> TallyView {
    TallyView { count: 0, done: false, first_error: None }
}

/// The tally after one more receive result has been observed.
pub open spec fn record_spec(t: TallyView, r: ReceiveResult) -> TallyView {
    match r {
        ReceiveResult::Deleted => TallyView { count: t.count + 1, ..t },
        ReceiveResult::Empty => TallyView { done: true, ..t },
        ReceiveResult::Failed(e) => TallyView {
            done: true,
            first_error: if t.first_error is None {
                Some(e)
            } else {
                t.first_error
            },
            ..t
        },
    }
}

/// The tally after the results `rs` were observed, in that order, whichever
/// workers made the calls.
pub open spec fn tally_of(rs: Seq<ReceiveResult>) -> TallyView
    decreases rs.len(),
{
    if rs.len() == 0 {
        initial_tally()
    } else {
        record_spec(tally_of(rs.drop_last()), rs.last())
    }
}

pub open spec fn is_deleted(r: ReceiveResult) -> bool {
    r is Deleted
}

pub open spec fn is_failed(r: ReceiveResult) -> bool {
    r is Failed
}

/// Number of successful receive-and-delete calls among `rs`.
pub open spec fn deleted_in(rs: Seq<ReceiveResult>) -> nat {
    rs.filter(|r: ReceiveResult| is_deleted(r)).len()
}

/// Whether `i` is the position of the first failure in `rs`.
pub open spec fn first_failure_at(rs: Seq<ReceiveResult>, i: int) -> bool {
    &&& 0 <= i < rs.len()
    &&& is_failed(rs[i])
    &&& forall|j: int| 0 <= j < i ==> !is_failed(#[trigger] rs[j])
}

/// What a purge reports once every worker has been joined.
pub open spec fn outcome_spec(t: TallyView, cancelled: bool) -> PurgeOutcome {
    match t.first_error {
        Some(e) => PurgeOutcome::Failed(t.count as u64, e),
        None => if cancelled {
            PurgeOutcome::Cancelled(t.count as u64)
        } else {
            PurgeOutcome::Completed(t.count as u64)
        },
    }
}

/// The count carried by an outcome.
pub open spec fn outcome_count(o: PurgeOutcome) -> u64 {
    match o {
        PurgeOutcome::Completed(n) => n,
        PurgeOutcome::Cancelled(n) => n,
        PurgeOutcome::Failed(n, _) => n,
    }
}

impl PurgeTally {
    /// A tally with nothing deleted, not done, and no error.
    pub fn new() -> (r: PurgeTally)
        ensures
            r@ == initial_tally(),
    {
        PurgeTally { count: 0, done: false, first_error: None }
    }

    /// Messages deleted so far.
    pub fn count(&self) -> (r: u64)
        ensures
            r as nat == self@.count,
    {
        self.count
    }

    /// Whether the workers have been told to stop.
    pub fn is_done(&self) -> (r: bool)
        ensures
            r == self@.done,
    {
        self.done
    }

    /// Whether a worker may issue another receive: only while no worker has
    /// seen the entity empty or failed, and the caller has not cancelled.
    pub fn worker_should_continue(&self, cancelled: bool) -> (r: bool)
        ensures
            r == (!self@.done && !cancelled),
    {
        !self.done && !cancelled
    }

    /// Records one receive result. A deletion counts; an empty entity or a
    /// failure stops every worker; only the first failure is kept.
    pub fn record(&mut self, result: ReceiveResult)
        requires
            old(self)@.count < u64::MAX,
        ensures
            final(self)@ == record_spec(old(self)@, result),
    {
        match result {
            ReceiveResult::Deleted => {
                self.count = self.count + 1;
            },
            ReceiveResult::Empty => {
                self.done = true;
            },
            ReceiveResult::Failed(e) => {
                self.done = true;
                if self.first_error.is_none() {
                    self.first_error = Some(e);
                }
            },
        }
    }

    /// The outcome of the purge: the first error if any worker failed,
    /// otherwise cancelled or completed; always with the count so far.
    pub fn finish(self, cancelled: bool) -> (r: PurgeOutcome)
        ensures
            r == outcome_spec(self@, cancelled),
    {
        match self.first_error {
            Some(e) => PurgeOutcome::Failed(self.count, e),
            None => if cancelled {
                PurgeOutcome::Cancelled(self.count)
            } else {
                PurgeOutcome::Completed(self.count)
            },
        }
    }
}

/// Folds the outcome of one path's purge into the running total of a purge
/// over several paths: a completed path adds its count and moves on; a
/// cancelled or failed one stops everything, reporting the grand total.
pub fn accumulate_path(total: u64, outcome: PurgeOutcome) -> (r: PathStep)
    requires
        total + outcome_count(outcome) <= u64::MAX,
    ensures
        r == (match outcome {
            PurgeOutcome::Completed(n) => PathStep::Next((total + n) as u64),
            PurgeOutcome::Cancelled(n) => PathStep::Stop(PurgeOutcome::Cancelled((total + n) as u64)),
            PurgeOutcome::Failed(n, e) => PathStep::Stop(PurgeOutcome::Failed((total + n) as u64, e)),
        }),
{
    match outcome {
        PurgeOutcome::Completed(n) => PathStep::Next(total + n),
        PurgeOutcome::Cancelled(n) => PathStep::Stop(PurgeOutcome::Cancelled(total + n)),
        PurgeOutcome::Failed(n, e) => PathStep::Stop(PurgeOutcome::Failed(total + n, e)),
    }
}

/// Throttles progress: given the count last relayed and a new count, the
/// count to relay now, if it is at least a full step past the last one.
pub fn relay_progress(last_reported: u64, n: u64) -> (r: Option<u64>)
    ensures
        r == (if n >= last_reported + PROGRESS_STEP {
            Some(n)
        } else {
            None::<u64>
        }),
{
    if last_reported <= n && n - last_reported >= PROGRESS_STEP {
        Some(n)
    } else {
        None
    }
}

proof fn lemma_tally_prefix(rs: Seq<ReceiveResult>)
    ensures
        tally_of(rs).count == deleted_in(rs),
        tally_of(rs).first_error is None <==> (forall|j: int|
            0 <= j < rs.len() ==> !is_failed(#[trigger] rs[j])),
        forall|i: int| first_failure_at(rs, i) ==> tally_of(rs).first_error == Some(
            rs[i]->Failed_0,
        ),
    decreases rs.len(),
{
    reveal(Seq::filter);
    if rs.len() > 0 {
        let p = rs.drop_last();
        lemma_tally_prefix(p);
        assert(rs.filter(|r: ReceiveResult| is_deleted(r)) == (if is_deleted(rs.last()) {
            p.filter(|r: ReceiveResult| is_deleted(r)).push(rs.last())
        } else {
            p.filter(|r: ReceiveResult| is_deleted(r))
        }));
        assert forall|j: int| 0 <= j < p.len() implies p[j] == rs[j] by {}
        assert forall|i: int| first_failure_at(rs, i) implies tally_of(rs).first_error == Some(
            rs[i]->Failed_0,
        ) by {
            if i < p.len() {
                assert(first_failure_at(p, i));
            } else {
                assert forall|j: int| 0 <= j < p.len() implies !is_failed(#[trigger] p[j]) by {
                    assert(rs[j] == p[j]);
                }
            }
        }
        if tally_of(rs).first_error is None {
            assert forall|j: int| 0 <= j < rs.len() implies !is_failed(#[trigger] rs[j]) by {
                if j < p.len() {
                    assert(rs[j] == p[j]);
                }
            }
        }
        if forall|j: int| 0 <= j < rs.len() ==> !is_failed(#[trigger] rs[j]) {
            assert forall|j: int| 0 <= j < p.len() implies !is_failed(#[trigger] p[j]) by {
                assert(rs[j] == p[j]);
            }
            assert(!is_failed(rs[rs.len() - 1]));
        }
    }
}

/// Whatever the number of workers and however their calls interleave, the
/// count a purge reports equals the number of successful receive-and-delete
/// calls among the results its workers observed.
pub proof fn purge_count_is_deletions(rs: Seq<ReceiveResult>, cancelled: bool)
    requires
        deleted_in(rs) <= u64::MAX,
    ensures
        tally_of(rs).count == deleted_in(rs),
        outcome_count(outcome_spec(tally_of(rs), cancelled)) == deleted_in(rs),
{
    lemma_tally_prefix(rs);
}

/// A purge in which some worker failed reports failure, with the first
/// error observed and the count of deletions made, which is zero when the
/// failure came before any success and no success followed it.
pub proof fn purge_failure_keeps_partial_count(
    rs: Seq<ReceiveResult>,
    i: int,
    cancelled: bool,
)
    requires
        first_failure_at(rs, i),
        deleted_in(rs) <= u64::MAX,
    ensures
        outcome_spec(tally_of(rs), cancelled) == PurgeOutcome::Failed(
            deleted_in(rs) as u64,
            rs[i]->Failed_0,
        ),
        (forall|j: int| 0 <= j < rs.len() ==> !is_deleted(#[trigger] rs[j])) ==> deleted_in(rs)
            == 0,
{
    lemma_tally_prefix(rs);
    if forall|j: int| 0 <= j < rs.len() ==> !is_deleted(#[trigger] rs[j]) {
        lemma_none_deleted(rs);
    }
}

proof fn lemma_none_deleted(rs: Seq<ReceiveResult>)
    requires
        forall|j: int| 0 <= j < rs.len() ==> !is_deleted(#[trigger] rs[j]),
    ensures
        deleted_in(rs) == 0,
    decreases rs.len(),
{
    reveal(Seq::filter);
    if rs.len() > 0 {
        let p = rs.drop_last();
        assert forall|j: int| 0 <= j < p.len() implies !is_deleted(#[trigger] p[j]) by {
            assert(rs[j] == p[j]);
        }
        lemma_none_deleted(p);
        assert(!is_deleted(rs[rs.len() - 1]));
    }
}

/// Once a worker has seen the entity empty or failed, every worker stops:
/// no later result clears the flag.
pub proof fn purge_stop_is_final(rs: Seq<ReceiveResult>, more: Seq<ReceiveResult>)
    requires
        tally_of(rs).done,
    ensures
        tally_of(rs + more).done,
    decreases more.len(),
{
    if more.len() > 0 {
        let shorter = more.drop_last();
        purge_stop_is_final(rs, shorter);
        assert((rs + more).drop_last() == rs + shorter);
    } else {
        assert(rs + more == rs);
    }
}

proof fn lemma_deleted_is_multiset_count(rs: Seq<ReceiveResult>)
    ensures
        deleted_in(rs) == rs.to_multiset().count(ReceiveResult::Deleted),
    decreases rs.len(),
{
    broadcast use vstd::seq_lib::group_to_multiset_ensures;

    reveal(Seq::filter);
    if rs.len() == 0 {
        assert(rs.to_multiset() =~= vstd::multiset::Multiset::<ReceiveResult>::empty());
    } else {
        let p = rs.drop_last();
        lemma_deleted_is_multiset_count(p);
        assert(rs == p.push(rs.last()));
        assert(rs.to_multiset() == p.to_multiset().insert(rs.last()));
    }
}

/// The count a purge reports depends only on which results its workers
/// observed, not on how many workers there were or in which order their
/// calls completed: two observation orders of the same results report the
/// same count.
pub proof fn purge_count_ignores_interleaving(rs1: Seq<ReceiveResult>, rs2: Seq<ReceiveResult>)
    requires
        rs1.to_multiset() == rs2.to_multiset(),
    ensures
        tally_of(rs1).count == tally_of(rs2).count,
{
    lemma_tally_prefix(rs1);
    lemma_tally_prefix(rs2);
    lemma_deleted_is_multiset_count(rs1);
    lemma_deleted_is_multiset_count(rs2);
}

} // verus!
