use vstd::prelude::*;

use crate::error::ServiceBusError;

verus! {

/// How many dead-lettered messages a search locks before giving up.
pub const DEFAULT_MAX_SCAN: u32 = 50;

/// Where a search for one dead-lettered message stands.
#[derive(Debug)]
pub enum LocatePhase {
    /// Locking messages one at a time and comparing sequence numbers.
    Scanning,
    /// The target is locked under this lock URI and must be completed.
    Completing(String),
    /// Releasing the locks of the non-matching messages; then this result.
    Restoring(Result<bool, ServiceBusError>),
}

/// What the search asks of the broker next.
#[derive(Debug)]
pub enum LocateStep {
    /// Lock the next message of the dead-letter path.
    Lock,
    /// Complete (delete) the message held under this lock.
    Complete(String),
    /// Abandon the message held under this lock.
    Abandon(String),
    /// Nothing left to do: call [`DlqLocator::finish`].
    Done,
}

/// Removes one dead-lettered message, found by sequence number, by a
/// bounded linear scan that restores every other message it locked.
pub struct DlqLocator {
    target: i64,
    max_scan: u32,
    scanned: u32,
    pending: Vec<String>,
    phase: LocatePhase,
}

/// Mathematical picture of a [`DlqLocator`].
pub struct LocatorView {
    pub target: i64,
    pub max_scan: nat,
    pub scanned: nat,
    pub pending: Seq<String>,
    pub phase: LocatePhase,
}

impl View for DlqLocator {
    type V = LocatorView;

    closed spec fn view(&self) -> LocatorView {
        LocatorView {
            target: self.target,
            max_scan: self.max_scan as nat,
            scanned: self.scanned as nat,
            pending: self.pending@,
            phase: self.phase,
        }
    }
}

/// A search never scans past its bound.
pub open spec fn locator_wf(v: LocatorView) -> bool {
    v.phase is Scanning ==> v.scanned < v.max_scan
}

/// A search that has locked nothing yet.
pub open spec fn locator_start(target: i64, max_scan: nat) -> LocatorView {
    LocatorView {
        target,
        max_scan,
        scanned: 0,
        pending: Seq::empty(),
        phase: if max_scan == 0 {
            LocatePhase::Restoring(Ok(false))
        } else {
            LocatePhase::Scanning
        },
    }
}

/// The next request of a search.
pub open spec fn locate_step_spec(v: LocatorView) -> LocateStep {
    match v.phase {
        LocatePhase::Scanning => LocateStep::Lock,
        LocatePhase::Completing(uri) => LocateStep::Complete(uri),
        LocatePhase::Restoring(_) => if v.pending.len() > 0 {
            LocateStep::Abandon(v.pending.last())
        } else {
            LocateStep::Done
        },
    }
}

/// The search after a message with `seq` was locked under `lock`.
pub open spec fn on_locked_spec(v: LocatorView, seq: Option<i64>, lock: Option<String>) -> LocatorView {
    let scanned = v.scanned + 1;
    if seq == Some(v.target) && lock is Some {
        LocatorView { scanned, phase: LocatePhase::Completing(lock->Some_0), ..v }
    } else {
        let pending = if lock is Some {
            v.pending.push(lock->Some_0)
        } else {
            v.pending
        };
        LocatorView {
            scanned,
            pending,
            phase: if scanned >= v.max_scan {
                LocatePhase::Restoring(Ok(false))
            } else {
                LocatePhase::Scanning
            },
            ..v
        }
    }
}

/// The search after the dead-letter path was found empty.
pub open spec fn on_empty_spec(v: LocatorView) -> LocatorView {
    LocatorView { phase: LocatePhase::Restoring(Ok(false)), ..v }
}

/// The search after the target's completion answered `res`.
pub open spec fn on_completed_spec(v: LocatorView, res: Result<(), ServiceBusError>) -> LocatorView {
    LocatorView {
        phase: LocatePhase::Restoring(
            match res {
                Ok(_) => Ok(true),
                Err(e) => Err(e),
            },
        ),
        ..v
    }
}

impl DlqLocator {
    /// Starts a search for `target` that locks at most `max_scan` messages.
    pub fn new(target: i64, max_scan: u32) -> (r: DlqLocator)
        ensures
            r@ == locator_start(target, max_scan as nat),
            locator_wf(r@),
    {
        DlqLocator {
            target,
            max_scan,
            scanned: 0,
            pending: Vec::new(),
            phase: if max_scan == 0 {
                LocatePhase::Restoring(Ok(false))
            } else {
                LocatePhase::Scanning
            },
        }
    }

    /// The next request to make of the broker.
    pub fn next_step(&self) -> (r: LocateStep)
        ensures
            r == locate_step_spec(self@),
    {
        match &self.phase {
            LocatePhase::Scanning => LocateStep::Lock,
            LocatePhase::Completing(uri) => LocateStep::Complete(uri.clone()),
            LocatePhase::Restoring(_) => {
                if self.pending.len() > 0 {
                    LocateStep::Abandon(self.pending[self.pending.len() - 1].clone())
                } else {
                    LocateStep::Done
                }
            },
        }
    }

    /// Records a locked message: its sequence number and lock URI, either of
    /// which the broker may have left out. A match moves on to completing it;
    /// any other message is kept for release. A message without a lock
    /// still counts against the scan bound.
    pub fn on_locked(&mut self, seq: Option<i64>, lock: Option<String>)
        requires
            old(self)@.phase is Scanning,
            locator_wf(old(self)@),
        ensures
            final(self)@ == on_locked_spec(old(self)@, seq, lock),
            locator_wf(final(self)@),
    {
        self.scanned = self.scanned + 1;
        let is_target = match seq {
            Some(s) => s == self.target,
            None => false,
        };
        match lock {
            Some(uri) => {
                if is_target {
                    self.phase = LocatePhase::Completing(uri);
                    return;
                }
                self.pending.push(uri);
            },
            None => {},
        }
        if self.scanned >= self.max_scan {
            self.phase = LocatePhase::Restoring(Ok(false));
        }
    }

    /// Records that no message was available: the target is not there.
    pub fn on_empty(&mut self)
        requires
            old(self)@.phase is Scanning,
        ensures
            final(self)@ == on_empty_spec(old(self)@),
    {
        self.phase = LocatePhase::Restoring(Ok(false));
    }

    /// Records a failed lock: the search ends with that error once the
    /// messages locked so far are released.
    pub fn on_lock_failed(&mut self, e: ServiceBusError)
        requires
            old(self)@.phase is Scanning,
        ensures
            final(self)@ == (LocatorView { phase: LocatePhase::Restoring(Err(e)), ..old(self)@ }),
    {
        self.phase = LocatePhase::Restoring(Err(e));
    }

    /// Records the answer to completing the target.
    pub fn on_completed(&mut self, res: Result<(), ServiceBusError>)
        requires
            old(self)@.phase is Completing,
        ensures
            final(self)@ == on_completed_spec(old(self)@, res),
    {
        self.phase = LocatePhase::Restoring(
            match res {
                Ok(_) => Ok(true),
                Err(e) => Err(e),
            },
        );
    }

    /// Records that the last pending lock was released; whether the abandon
    /// itself succeeded does not matter, the lock expires either way.
    pub fn on_abandoned(&mut self)
        requires
            old(self)@.phase is Restoring,
            old(self)@.pending.len() > 0,
        ensures
            final(self)@ == (LocatorView { pending: old(self)@.pending.drop_last(), ..old(self)@ }),
    {
        self.pending.pop();
    }

    /// The result of the search: whether the target was found and removed.
    pub fn finish(self) -> (r: Result<bool, ServiceBusError>)
        requires
            self@.phase is Restoring,
        ensures
            r == self@.phase->Restoring_0,
    {
        match self.phase {
            LocatePhase::Restoring(r) => r,
            _ => Ok(false),
        }
    }
}

/// The search after the broker hands out the messages `order[i..]` (by
/// sequence number) under the locks `locks[i..]`, then reports the path empty.
pub open spec fn scan_from(v: LocatorView, order: Seq<i64>, locks: Seq<String>, i: int) -> LocatorView
    decreases order.len() - i,
{
    if !(v.phase is Scanning) || i < 0 || i >= order.len() {
        if v.phase is Scanning {
            on_empty_spec(v)
        } else {
            v
        }
    } else {
        scan_from(on_locked_spec(v, Some(order[i]), Some(locks[i])), order, locks, i + 1)
    }
}

/// Whether `target` is among the first `k` messages of `order`.
pub open spec fn within_scan(order: Seq<i64>, target: i64, k: nat) -> bool {
    exists|m: int| 0 <= m < k && m < order.len() && order[m] == target
}

proof fn lemma_scan(v: LocatorView, order: Seq<i64>, locks: Seq<String>, i: int)
    requires
        v.phase is Scanning,
        0 <= i <= order.len(),
        order.len() == locks.len(),
        v.scanned == i,
        i < v.max_scan,
        v.pending == locks.take(i),
        forall|j: int| 0 <= j < i ==> order[j] != v.target,
    ensures
        ({
            let r = scan_from(v, order, locks, i);
            let k = if v.max_scan < order.len() {
                v.max_scan
            } else {
                order.len() as nat
            };
            &&& forall|m: int|
                i <= m < k && order[m] == v.target && (forall|j: int|
                    0 <= j < m ==> order[j] != v.target) ==> r.phase == LocatePhase::Completing(
                    locks[m],
                ) && r.pending == locks.take(m) && r.scanned == m + 1
            &&& !within_scan(order, v.target, v.max_scan) ==> r.phase == LocatePhase::Restoring(
                Ok(false),
            ) && r.pending == locks.take(k as int) && r.scanned == k
        }),
    decreases order.len() - i,
{
    if i < order.len() {
        let w = on_locked_spec(v, Some(order[i]), Some(locks[i]));
        assert(locks.take(i).push(locks[i]) == locks.take(i + 1));
        if order[i] == v.target {
        } else if i + 1 >= v.max_scan {
            assert forall|m: int| i <= m < v.max_scan implies !(order[m] == v.target && (forall|
                j: int,
            | 0 <= j < m ==> order[j] != v.target)) by {
                assert(m == i);
            }
        } else {
            lemma_scan(w, order, locks, i + 1);
        }
    } else {
        assert forall|m: int| i <= m < order.len() implies !(order[m] == v.target) by {}
    }
}

/// A search for `target` over a dead-letter path whose broker hands out
/// `order` (sequence numbers, unique, in delivery order) under the locks
/// `locks` finds the target exactly when it is among the first `max_scan`
/// messages handed out. Then that message alone is completed, and the
/// messages locked before it, one fewer than the number scanned, are the
/// ones released. Otherwise nothing is removed and every message scanned is
/// released. Delivery order, not numeric order, decides.
pub proof fn locate_removes_only_target(
    target: i64,
    max_scan: nat,
    order: Seq<i64>,
    locks: Seq<String>,
)
    requires
        order.len() == locks.len(),
        order.no_duplicates(),
    ensures
        ({
            let r = scan_from(locator_start(target, max_scan), order, locks, 0);
            let k = if max_scan < order.len() {
                max_scan
            } else {
                order.len() as nat
            };
            &&& within_scan(order, target, max_scan) ==> exists|m: int|
                0 <= m < k && order[m] == target && r.phase == LocatePhase::Completing(locks[m])
                    && r.pending == locks.take(m) && r.scanned == m + 1 && r.pending.len()
                    == r.scanned - 1
            &&& !within_scan(order, target, max_scan) ==> r.phase == LocatePhase::Restoring(
                Ok(false),
            ) && r.pending == locks.take(k as int) && r.scanned == k
            &&& forall|res: Result<(), ServiceBusError>|
                r.phase is Completing ==> (#[trigger] on_completed_spec(r, res)).phase
                    == LocatePhase::Restoring(
                    match res {
                        Ok(_) => Ok::<bool, ServiceBusError>(true),
                        Err(e) => Err(e),
                    },
                ) && on_completed_spec(r, res).pending == r.pending
        }),
{
    let v = locator_start(target, max_scan);
    if max_scan == 0 {
        assert(!within_scan(order, target, max_scan));
        assert(locks.take(0) =~= Seq::<String>::empty());
    } else {
        assert(locks.take(0) =~= Seq::<String>::empty());
        lemma_scan(v, order, locks, 0);
        let k = if max_scan < order.len() {
            max_scan
        } else {
            order.len() as nat
        };
        if within_scan(order, target, max_scan) {
            let m0 = choose|m: int| 0 <= m < max_scan && m < order.len() && order[m] == target;
            assert forall|j: int| 0 <= j < m0 implies order[j] != target by {
                if order[j] == target {
                    assert(order[j] == order[m0]);
                }
            }
            assert(0 <= m0 < k && order[m0] == target);
        }
    }
}

} // verus!
