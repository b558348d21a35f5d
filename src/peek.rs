use vstd::prelude::*;

use crate::error::ServiceBusError;

verus! {

/// What a peek asks of the broker next.
#[derive(Debug)]
pub enum PeekStep {
    /// Lock one more message.
    Lock,
    /// Abandon the message held under this lock.
    Abandon(String),
    /// Nothing left to do: call [`PeekSession::finish`].
    Finish,
}

/// Reads up to a given number of messages without removing them, by locking
/// them one at a time and then abandoning every lock. Each message peeked
/// this way has its delivery count raised by one: the protocol offers no
/// other way to see past the head of an entity.
pub struct PeekSession<M> {
    requested: u32,
    messages: Vec<M>,
    locks: Vec<String>,
    released: usize,
    exhausted: bool,
    failure: Option<ServiceBusError>,
}

/// Mathematical picture of a [`PeekSession`].
pub struct PeekView<M> {
    pub requested: nat,
    pub messages: Seq<M>,
    pub locks: Seq<String>,
    pub released: nat,
    pub exhausted: bool,
    pub failure: Option<ServiceBusError>,
}

impl<M> View for PeekSession<M> {
    type V = PeekView<M>;

    closed spec fn view(&self) -> PeekView<M> {
        PeekView {
            requested: self.requested as nat,
            messages: self.messages@,
            locks: self.locks@,
            released: self.released as nat,
            exhausted: self.exhausted,
            failure: self.failure,
        }
    }
}

/// A peek of `count` messages that has done nothing yet; a negative count
/// asks for none.
pub open spec fn peek_start<M>(count: i32) -> PeekView<M> {
    PeekView {
        requested: if count < 0 {
            0
        } else {
            count as nat
        },
        messages: Seq::empty(),
        locks: Seq::empty(),
        released: 0,
        exhausted: false,
        failure: None,
    }
}

/// The next request of a peek: lock until enough messages are held or the
/// entity runs dry, then abandon the locks in the order they were taken.
pub open spec fn peek_step_spec<M>(v: PeekView<M>) -> PeekStep {
    if !v.exhausted && v.messages.len() < v.requested {
        PeekStep::Lock
    } else if v.released < v.locks.len() {
        PeekStep::Abandon(v.locks[v.released as int])
    } else {
        PeekStep::Finish
    }
}

/// The peek after a message was locked, under `lock` if the broker gave one.
pub open spec fn peek_on_locked<M>(v: PeekView<M>, msg: M, lock: Option<String>) -> PeekView<M> {
    PeekView {
        messages: v.messages.push(msg),
        locks: if lock is Some {
            v.locks.push(lock->Some_0)
        } else {
            v.locks
        },
        ..v
    }
}

/// The peek after the entity was found empty.
pub open spec fn peek_on_empty<M>(v: PeekView<M>) -> PeekView<M> {
    PeekView { exhausted: true, ..v }
}

/// The peek after one more lock was released.
pub open spec fn peek_on_abandoned<M>(v: PeekView<M>) -> PeekView<M> {
    PeekView { released: v.released + 1, ..v }
}

impl<M> PeekSession<M> {
    /// Starts a peek of `count` messages.
    pub fn new(count: i32) -> (r: PeekSession<M>)
        ensures
            r@ == peek_start::<M>(count),
    {
        PeekSession {
            requested: if count < 0 {
                0
            } else {
                count as u32
            },
            messages: Vec::new(),
            locks: Vec::new(),
            released: 0,
            exhausted: false,
            failure: None,
        }
    }

    /// The next request to make of the broker.
    pub fn next_step(&self) -> (r: PeekStep)
        ensures
            r == peek_step_spec(self@),
    {
        if !self.exhausted && self.messages.len() < self.requested as usize {
            PeekStep::Lock
        } else if self.released < self.locks.len() {
            PeekStep::Abandon(self.locks[self.released].clone())
        } else {
            PeekStep::Finish
        }
    }

    /// Records a locked message and its lock.
    pub fn on_locked(&mut self, msg: M, lock: Option<String>)
        requires
            peek_step_spec(old(self)@) is Lock,
        ensures
            final(self)@ == peek_on_locked(old(self)@, msg, lock),
    {
        self.messages.push(msg);
        match lock {
            Some(l) => self.locks.push(l),
            None => {},
        }
    }

    /// Records that nothing more was available.
    pub fn on_empty(&mut self)
        ensures
            final(self)@ == peek_on_empty(old(self)@),
    {
        self.exhausted = true;
    }

    /// Records a failed lock: the locks taken so far are still released,
    /// and the peek then fails with this error.
    pub fn on_lock_failed(&mut self, e: ServiceBusError)
        ensures
            final(self)@ == (PeekView { exhausted: true, failure: Some(e), ..old(self)@ }),
    {
        self.exhausted = true;
        self.failure = Some(e);
    }

    /// Records that the next lock was released; a failed abandon is ignored,
    /// as the lock expires on its own.
    pub fn on_abandoned(&mut self)
        requires
            peek_step_spec(old(self)@) is Abandon,
        ensures
            final(self)@ == peek_on_abandoned(old(self)@),
    {
        let held = self.locks.len();
        assert(self.released < held);
        self.released = self.released + 1;
    }

    /// The messages peeked, in the order they were locked, or the error
    /// that stopped the peek.
    pub fn finish(self) -> (r: Result<Vec<M>, ServiceBusError>)
        ensures
            match self@.failure {
                Some(e) => r == Err::<Vec<M>, ServiceBusError>(e),
                None => r is Ok && r->Ok_0@ == self@.messages,
            },
    {
        match self.failure {
            Some(e) => Err(e),
            None => Ok(self.messages),
        }
    }
}

/// A message as the broker holds it, for reasoning about its effects.
pub struct BrokerMessage {
    pub sequence_number: i64,
    pub delivery_count: nat,
}

/// A broker entity: the messages available, in delivery order, and the
/// messages held under a lock.
pub struct EntityModel {
    pub available: Seq<BrokerMessage>,
    pub locked: Map<String, BrokerMessage>,
}

/// A message after one more delivery.
pub open spec fn delivered(m: BrokerMessage) -> BrokerMessage {
    BrokerMessage { delivery_count: m.delivery_count + 1, ..m }
}

pub open spec fn all_delivered(s: Seq<BrokerMessage>) -> Seq<BrokerMessage> {
    s.map_values(|m: BrokerMessage| delivered(m))
}

pub open spec fn sequence_numbers(s: Seq<BrokerMessage>) -> Seq<i64> {
    s.map_values(|m: BrokerMessage| m.sequence_number)
}

/// A peek run against an entity whose broker locks the head message (raising
/// its delivery count), issues the `i`-th lock as `fresh[i]`, and on abandon
/// puts the message back at the end; at most `fuel` requests are made.
pub open spec fn peek_run(
    v: PeekView<BrokerMessage>,
    e: EntityModel,
    fresh: Seq<String>,
    fuel: nat,
) -> (PeekView<BrokerMessage>, EntityModel)
    decreases fuel,
{
    if fuel == 0 {
        (v, e)
    } else {
        match peek_step_spec(v) {
            PeekStep::Lock => if e.available.len() == 0 {
                peek_run(peek_on_empty(v), e, fresh, (fuel - 1) as nat)
            } else {
                let lock = fresh[v.locks.len() as int];
                let m = delivered(e.available[0]);
                peek_run(
                    peek_on_locked(v, m, Some(lock)),
                    EntityModel {
                        available: e.available.drop_first(),
                        locked: e.locked.insert(lock, m),
                    },
                    fresh,
                    (fuel - 1) as nat,
                )
            },
            PeekStep::Abandon(lock) => peek_run(
                peek_on_abandoned(v),
                EntityModel {
                    available: e.available.push(e.locked[lock]),
                    locked: e.locked.remove(lock),
                },
                fresh,
                (fuel - 1) as nat,
            ),
            PeekStep::Finish => (v, e),
        }
    }
}

proof fn lemma_releasing(
    v: PeekView<BrokerMessage>,
    e: EntityModel,
    avail: Seq<BrokerMessage>,
    fresh: Seq<String>,
    fuel: nat,
)
    requires
        fresh.no_duplicates(),
        fresh.len() >= avail.len(),
        v.exhausted || v.messages.len() >= v.requested,
        v.failure is None,
        v.messages == all_delivered(avail),
        v.locks == fresh.take(avail.len() as int),
        v.released <= avail.len(),
        e.available == all_delivered(avail).take(v.released as int),
        forall|l: String|
            #[trigger] e.locked.contains_key(l) <==> exists|j: int|
                v.released <= j < avail.len() && fresh[j] == l,
        forall|j: int|
            v.released <= j < avail.len() ==> #[trigger] e.locked[fresh[j]] == delivered(avail[j]),
        fuel >= avail.len() - v.released + 1,
    ensures
        peek_run(v, e, fresh, fuel).0.messages == all_delivered(avail),
        peek_run(v, e, fresh, fuel).0.failure is None,
        peek_run(v, e, fresh, fuel).1.available == all_delivered(avail),
        peek_run(v, e, fresh, fuel).1.locked == Map::<String, BrokerMessage>::empty(),
    decreases avail.len() - v.released,
{
    let n = avail.len() as int;
    if v.released < n {
        let r = v.released as int;
        let l = fresh[r];
        assert(v.locks[r] == l);
        let v2 = peek_on_abandoned(v);
        let e2 = EntityModel { available: e.available.push(e.locked[l]), locked: e.locked.remove(l) };
        assert(e2.available == all_delivered(avail).take(r + 1));
        assert forall|k: String| #[trigger] e2.locked.contains_key(k) <==> exists|j: int|
            v2.released <= j < n && fresh[j] == k by {
            if e2.locked.contains_key(k) {
                let j = choose|j: int| v.released <= j < n && fresh[j] == k;
                assert(j != r);
            }
            if exists|j: int| v2.released <= j < n && fresh[j] == k {
                let j = choose|j: int| v2.released <= j < n && fresh[j] == k;
                assert(fresh[j] != fresh[r]);
                assert(e.locked.contains_key(k));
            }
        }
        assert forall|j: int| v2.released <= j < n implies #[trigger] e2.locked[fresh[j]]
            == delivered(avail[j]) by {
            assert(fresh[j] != fresh[r]);
        }
        lemma_releasing(v2, e2, avail, fresh, (fuel - 1) as nat);
    } else {
        assert(e.available == all_delivered(avail));
        assert(e.locked =~= Map::<String, BrokerMessage>::empty());
    }
}

proof fn lemma_locking(
    v: PeekView<BrokerMessage>,
    e: EntityModel,
    avail: Seq<BrokerMessage>,
    fresh: Seq<String>,
    i: int,
    fuel: nat,
)
    requires
        fresh.no_duplicates(),
        fresh.len() >= avail.len(),
        avail.len() <= v.requested,
        0 <= i <= avail.len(),
        !v.exhausted,
        v.failure is None,
        v.released == 0,
        v.messages == all_delivered(avail.take(i)),
        v.locks == fresh.take(i),
        e.available == avail.skip(i),
        forall|l: String|
            #[trigger] e.locked.contains_key(l) <==> exists|j: int| 0 <= j < i && fresh[j] == l,
        forall|j: int| 0 <= j < i ==> #[trigger] e.locked[fresh[j]] == delivered(avail[j]),
        fuel >= 2 * avail.len() - i + 2,
    ensures
        peek_run(v, e, fresh, fuel).0.messages == all_delivered(avail),
        peek_run(v, e, fresh, fuel).0.failure is None,
        peek_run(v, e, fresh, fuel).1.available == all_delivered(avail),
        peek_run(v, e, fresh, fuel).1.locked == Map::<String, BrokerMessage>::empty(),
    decreases avail.len() - i,
{
    let n = avail.len() as int;
    if i < n {
        let lock = fresh[i];
        assert(v.locks.len() == i);
        let m = delivered(e.available[0]);
        assert(e.available[0] == avail[i]);
        let v2 = peek_on_locked(v, m, Some(lock));
        let e2 = EntityModel { available: e.available.drop_first(), locked: e.locked.insert(lock, m) };
        assert(avail.take(i + 1) == avail.take(i).push(avail[i]));
        assert(all_delivered(avail.take(i + 1)) == all_delivered(avail.take(i)).push(delivered(avail[i])));
        assert(fresh.take(i + 1) == fresh.take(i).push(fresh[i]));
        assert(e2.available == avail.skip(i + 1));
        assert forall|k: String| #[trigger] e2.locked.contains_key(k) <==> exists|j: int|
            0 <= j < i + 1 && fresh[j] == k by {
            if exists|j: int| 0 <= j < i + 1 && fresh[j] == k {
                let j = choose|j: int| 0 <= j < i + 1 && fresh[j] == k;
                if j < i {
                    assert(e.locked.contains_key(k));
                }
            }
        }
        assert forall|j: int| 0 <= j < i + 1 implies #[trigger] e2.locked[fresh[j]] == delivered(
            avail[j],
        ) by {
            if j < i {
                assert(fresh[j] != fresh[i]);
            }
        }
        lemma_locking(v2, e2, avail, fresh, i + 1, (fuel - 1) as nat);
    } else {
        assert(avail.take(i) == avail);
        let v1 = if v.messages.len() < v.requested {
            peek_on_empty(v)
        } else {
            v
        };
        let f1 = if v.messages.len() < v.requested {
            (fuel - 1) as nat
        } else {
            fuel
        };
        assert(e.available.len() == 0);
        assert(e.available =~= Seq::<BrokerMessage>::empty());
        assert(all_delivered(avail).take(0) =~= Seq::<BrokerMessage>::empty());
        assert(peek_run(v, e, fresh, fuel) == peek_run(v1, e, fresh, f1));
        lemma_releasing(v1, e, avail, fresh, f1);
    }
}

/// Peeking `count` messages from an entity holding no more than that many
/// returns every one of them, each with its delivery count raised by one,
/// and leaves them all available again, in the same delivery order and with
/// no lock held; so a second peek returns the same messages.
pub proof fn peek_returns_all_and_restores(
    count: i32,
    avail: Seq<BrokerMessage>,
    fresh: Seq<String>,
    fresh2: Seq<String>,
    fuel: nat,
)
    requires
        avail.len() <= count,
        fresh.no_duplicates(),
        fresh2.no_duplicates(),
        fresh.len() >= avail.len(),
        fresh2.len() >= avail.len(),
        fuel >= 2 * avail.len() + 2,
    ensures
        ({
            let e0 = EntityModel { available: avail, locked: Map::empty() };
            let (v1, e1) = peek_run(peek_start(count), e0, fresh, fuel);
            let (v2, e2) = peek_run(peek_start(count), e1, fresh2, fuel);
            &&& v1.failure is None
            &&& v1.messages == all_delivered(avail)
            &&& e1.available == all_delivered(avail)
            &&& e1.locked == Map::<String, BrokerMessage>::empty()
            &&& sequence_numbers(v2.messages) == sequence_numbers(v1.messages)
        }),
{
    let e0 = EntityModel { available: avail, locked: Map::empty() };
    assert(avail.take(0) =~= Seq::<BrokerMessage>::empty());
    assert(fresh.take(0) =~= Seq::<String>::empty());
    assert(avail.skip(0) == avail);
    assert(all_delivered(avail.take(0)) =~= Seq::<BrokerMessage>::empty());
    lemma_locking(peek_start(count), e0, avail, fresh, 0, fuel);
    let (v1, e1) = peek_run(peek_start(count), e0, fresh, fuel);
    let a1 = all_delivered(avail);
    assert(a1.take(0) =~= Seq::<BrokerMessage>::empty());
    assert(fresh2.take(0) =~= Seq::<String>::empty());
    assert(a1.skip(0) == a1);
    assert(all_delivered(a1.take(0)) =~= Seq::<BrokerMessage>::empty());
    lemma_locking(peek_start(count), e1, a1, fresh2, 0, fuel);
    let (v2, e2) = peek_run(peek_start(count), e1, fresh2, fuel);
    assert(sequence_numbers(v2.messages) =~= sequence_numbers(v1.messages));
}

} // verus!
