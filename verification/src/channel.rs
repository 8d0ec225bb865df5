//! The log channel: a durable append-only log of records together with a
//! multicast live-update stream. Every record is appended to the durable log
//! before it is delivered to any subscriber, so a subscriber can only ever
//! observe records that are already in the log. A slow subscriber never
//! blocks the publisher: when its bounded buffer is full, the oldest pending
//! record is dropped and the subscriber observes a gap instead.

use vstd::prelude::*;

use crate::record::LogRecord;
use crate::record::RecordModel;

verus! {

/// Default per-subscriber delivery buffer capacity.
pub const SUBSCRIBER_BUFFER: usize = 100;

/// A live consumer of the broadcast stream. It holds the records delivered
/// to it but not yet taken, and a count of records it missed because its
/// buffer was full.
pub struct Subscriber {
    pending: Vec<LogRecord>,
    lagged: u64,
}

/// The mathematical value of a subscriber.
#[verifier::ext_equal]
pub struct SubscriberModel {
    pub pending: Seq<RecordModel>,
    pub lagged: u64,
}

/// The values of a sequence of records.
pub open spec fn records_model(v: Seq<LogRecord>) -> Seq<RecordModel> {
    v.map_values(|r: LogRecord| r@)
}

impl View for Subscriber {
    type V = SubscriberModel;

    closed spec fn view(&self) -> SubscriberModel {
        SubscriberModel { pending: records_model(self.pending@), lagged: self.lagged }
    }
}

/// The mathematical value of the whole channel.
#[verifier::ext_equal]
pub struct ChannelModel {
    pub log: Seq<RecordModel>,
    pub subs: Seq<SubscriberModel>,
    pub capacity: nat,
}

/// Delivery of one record to one subscriber: appended to its buffer when
/// there is room, and otherwise in place of the oldest pending record, which
/// is counted as missed.
pub open spec fn deliver(s: SubscriberModel, capacity: nat, r: RecordModel) -> SubscriberModel {
    if s.pending.len() < capacity {
        SubscriberModel { pending: s.pending.push(r), lagged: s.lagged }
    } else {
        SubscriberModel {
            pending: s.pending.skip(1).push(r),
            lagged: if s.lagged == u64::MAX {
                s.lagged
            } else {
                (s.lagged + 1) as u64
            },
        }
    }
}

/// Appending a record to the durable log.
pub open spec fn spec_append(c: ChannelModel, r: RecordModel) -> ChannelModel {
    ChannelModel { log: c.log.push(r), subs: c.subs, capacity: c.capacity }
}

/// Broadcasting a record to every subscriber.
pub open spec fn spec_publish(c: ChannelModel, r: RecordModel) -> ChannelModel {
    ChannelModel {
        log: c.log,
        subs: c.subs.map_values(|s: SubscriberModel| deliver(s, c.capacity, r)),
        capacity: c.capacity,
    }
}

/// Emitting a record: durably appended first, then broadcast.
pub open spec fn spec_emit(c: ChannelModel, r: RecordModel) -> ChannelModel {
    spec_publish(spec_append(c, r), r)
}

/// Channel invariant: buffers respect the capacity, and every record any
/// subscriber holds already stands in the durable log.
pub open spec fn wf_channel(c: ChannelModel) -> bool {
    &&& c.capacity >= 1
    &&& forall|j: int| 0 <= j < c.subs.len() ==> (#[trigger] c.subs[j]).pending.len() <= c.capacity
    &&& forall|j: int, k: int|
        0 <= j < c.subs.len() && 0 <= k < c.subs[j].pending.len() ==> c.log.contains(
            #[trigger] c.subs[j].pending[k],
        )
}

/// What a subscriber takes from its buffer: the next record, or a gap that
/// says how many records it missed.
pub enum ChannelEvent {
    Record(LogRecord),
    Lagged(u64),
}

/// Durable append-only record log with multicast fan-out to subscribers.
pub struct LogChannel {
    log: Vec<LogRecord>,
    subs: Vec<Subscriber>,
    capacity: usize,
}

impl View for LogChannel {
    type V = ChannelModel;

    closed spec fn view(&self) -> ChannelModel {
        ChannelModel {
            log: records_model(self.log@),
            subs: self.subs@.map_values(|s: Subscriber| s@),
            capacity: self.capacity as nat,
        }
    }
}

/// One subscriber's delivery step, building its successor value.
fn deliver_to(s: &Subscriber, capacity: usize, r: &LogRecord) -> (ns: Subscriber)
    requires
        capacity >= 1,
        s@.pending.len() <= capacity,
    ensures
        ns@ == deliver(s@, capacity as nat, r@),
{
    let full = s.pending.len() >= capacity;
    let start: usize = if full {
        1
    } else {
        0
    };
    let mut pending: Vec<LogRecord> = Vec::new();
    let mut k = start;
    while k < s.pending.len()
        invariant
            start <= k <= s.pending.len(),
            pending@.len() == k - start,
            forall|i: int| 0 <= i < pending@.len() ==> (#[trigger] pending@[i])@ == s.pending@[
                start + i
            ]@,
        decreases s.pending.len() - k,
    {
        pending.push(s.pending[k].duplicate());
        k = k + 1;
    }
    pending.push(r.duplicate());
    let lagged = if full {
        if s.lagged == u64::MAX {
            s.lagged
        } else {
            s.lagged + 1
        }
    } else {
        s.lagged
    };
    let ns = Subscriber { pending, lagged };
    proof {
        let target = deliver(s@, capacity as nat, r@).pending;
        assert forall|i: int| 0 <= i < ns@.pending.len() implies ns@.pending[i] == target[i] by {
            assert(ns@.pending[i] == pending@[i]@);
            if i + 1 < pending@.len() {
                assert(pending@[i]@ == s.pending@[start + i]@);
            }
        }
        assert(ns@.pending =~= target);
    }
    ns
}

impl LogChannel {
    /// A fresh channel with no records, no subscribers, and the given
    /// per-subscriber buffer capacity.
    pub fn new(capacity: usize) -> (c: LogChannel)
        requires
            capacity >= 1,
        ensures
            c@.log == Seq::<RecordModel>::empty(),
            c@.subs == Seq::<SubscriberModel>::empty(),
            c@.capacity == capacity as nat,
            wf_channel(c@),
    {
        let c = LogChannel { log: Vec::new(), subs: Vec::new(), capacity };
        proof {
            assert(c@.log =~= Seq::<RecordModel>::empty());
            assert(c@.subs =~= Seq::<SubscriberModel>::empty());
        }
        c
    }

    /// Number of records in the durable log.
    pub fn log_len(&self) -> (n: usize)
        ensures
            n == self@.log.len(),
    {
        self.log.len()
    }

    /// The record at position `i` of the durable log, oldest first.
    pub fn record(&self, i: usize) -> (r: &LogRecord)
        requires
            i < self@.log.len(),
        ensures
            r@ == self@.log[i as int],
    {
        &self.log[i]
    }

    /// Registers a new subscriber and returns its handle. A late joiner
    /// starts with an empty buffer: it never receives records broadcast
    /// before it subscribed.
    pub fn subscribe(&mut self) -> (id: usize)
        requires
            wf_channel(old(self)@),
        ensures
            id == old(self)@.subs.len(),
            final(self)@.log == old(self)@.log,
            final(self)@.capacity == old(self)@.capacity,
            final(self)@.subs == old(self)@.subs.push(
                SubscriberModel { pending: Seq::empty(), lagged: 0 },
            ),
            wf_channel(final(self)@),
    {
        let id = self.subs.len();
        self.subs.push(Subscriber { pending: Vec::new(), lagged: 0 });
        proof {
            let fresh = SubscriberModel { pending: Seq::empty(), lagged: 0 };
            assert(records_model(Seq::<LogRecord>::empty()) =~= Seq::<RecordModel>::empty());
            assert(self@.subs =~= old(self)@.subs.push(fresh));
        }
        id
    }

    /// Durably appends a record to the log. The log is append-only: no
    /// record is ever rewritten or removed.
    pub fn append(&mut self, rec: LogRecord)
        requires
            wf_channel(old(self)@),
        ensures
            final(self)@ == spec_append(old(self)@, rec@),
            wf_channel(final(self)@),
    {
        self.log.push(rec);
        proof {
            assert(self@.log =~= old(self)@.log.push(rec@));
            assert(self@ == spec_append(old(self)@, rec@));
            let c = self@;
            assert forall|j: int, k: int|
                0 <= j < c.subs.len() && 0 <= k < c.subs[j].pending.len() implies c.log.contains(
                #[trigger] c.subs[j].pending[k],
            ) by {
                let r = c.subs[j].pending[k];
                let i = choose|i: int| 0 <= i < old(self)@.log.len() && old(self)@.log[i] == r;
                assert(c.log[i] == r);
            }
        }
    }

    /// Broadcasts an already-appended record to every subscriber. The
    /// requirement that the record already stands in the log is what keeps a
    /// broadcast from ever outrunning the durable append.
    pub fn publish(&mut self, rec: &LogRecord)
        requires
            wf_channel(old(self)@),
            old(self)@.log.contains(rec@),
        ensures
            final(self)@ == spec_publish(old(self)@, rec@),
            wf_channel(final(self)@),
    {
        let mut updated: Vec<Subscriber> = Vec::new();
        let mut j: usize = 0;
        while j < self.subs.len()
            invariant
                j <= self.subs.len(),
                self@ == old(self)@,
                wf_channel(self@),
                updated@.len() == j,
                forall|i: int| 0 <= i < j ==> (#[trigger] updated@[i])@ == deliver(
                    old(self)@.subs[i],
                    old(self)@.capacity,
                    rec@,
                ),
            decreases self.subs.len() - j,
        {
            proof {
                assert(self.subs@[j as int]@ == self@.subs[j as int]);
                assert(self@.subs[j as int].pending.len() <= self@.capacity);
            }
            let ns = deliver_to(&self.subs[j], self.capacity, rec);
            updated.push(ns);
            j = j + 1;
        }
        self.subs = updated;
        proof {
            let target = spec_publish(old(self)@, rec@);
            assert forall|i: int| 0 <= i < self@.subs.len() implies self@.subs[i]
                == target.subs[i] by {
                assert(self@.subs[i] == updated@[i]@);
            }
            assert(self@.subs =~= target.subs);
            assert(self@ =~= target);
            lemma_publish_preserves_wf(old(self)@, rec@);
        }
    }

    /// Emits one record: durably appended to the log first, then broadcast
    /// to every subscriber, in that order.
    pub fn emit(&mut self, rec: LogRecord)
        requires
            wf_channel(old(self)@),
        ensures
            final(self)@ == spec_emit(old(self)@, rec@),
            wf_channel(final(self)@),
    {
        let copy = rec.duplicate();
        self.append(rec);
        proof {
            assert(self@.log.last() == copy@);
        }
        self.publish(&copy);
    }

    /// Takes the next event for subscriber `id`: a pending gap first, then
    /// the oldest pending record, or nothing. A record handed out here is
    /// always already in the durable log.
    pub fn next_event(&mut self, id: usize) -> (ev: Option<ChannelEvent>)
        requires
            wf_channel(old(self)@),
            id < old(self)@.subs.len(),
        ensures
            final(self)@.log == old(self)@.log,
            final(self)@.capacity == old(self)@.capacity,
            final(self)@.subs.len() == old(self)@.subs.len(),
            forall|j: int|
                0 <= j < old(self)@.subs.len() && j != id ==> final(self)@.subs[j] == old(
                    self,
                )@.subs[j],
            ({
                let s = old(self)@.subs[id as int];
                let ns = final(self)@.subs[id as int];
                if s.lagged > 0 {
                    &&& ev matches Some(ChannelEvent::Lagged(n)) && n == s.lagged
                    &&& ns.pending == s.pending
                    &&& ns.lagged == 0
                } else if s.pending.len() > 0 {
                    &&& ev matches Some(ChannelEvent::Record(r)) && r@ == s.pending[0]
                        && old(self)@.log.contains(r@)
                    &&& ns.pending == s.pending.skip(1)
                    &&& ns.lagged == 0
                } else {
                    &&& ev is None
                    &&& ns == s
                }
            }),
            wf_channel(final(self)@),
    {
        let mut sub = self.subs.remove(id);
        let ev: Option<ChannelEvent>;
        if sub.lagged > 0 {
            let n = sub.lagged;
            sub.lagged = 0;
            ev = Some(ChannelEvent::Lagged(n));
        } else if sub.pending.len() > 0 {
            let r = sub.pending.remove(0);
            proof {
                assert(sub@.pending =~= old(self)@.subs[id as int].pending.skip(1));
            }
            ev = Some(ChannelEvent::Record(r));
        } else {
            ev = None;
        }
        self.subs.insert(id, sub);
        proof {
            assert(self@.subs =~= old(self)@.subs.update(id as int, sub@));
            assert(self@.log =~= old(self)@.log);
            let s0 = old(self)@.subs[id as int];
            if s0.lagged == 0 && s0.pending.len() > 0 {
                assert(old(self)@.log.contains(s0.pending[0]));
            }
            assert forall|j: int, k: int|
                0 <= j < self@.subs.len() && 0 <= k < self@.subs[j].pending.len()
                implies self@.log.contains(#[trigger] self@.subs[j].pending[k]) by {
                if j == id {
                    if s0.lagged == 0 && s0.pending.len() > 0 {
                        assert(self@.subs[j].pending[k] == s0.pending[k + 1]);
                    } else {
                        assert(self@.subs[j].pending[k] == s0.pending[k]);
                    }
                } else {
                    assert(self@.subs[j].pending[k] == old(self)@.subs[j].pending[k]);
                }
            }
        }
        ev
    }
}

/// Broadcasting a record that already stands in the log preserves the
/// channel invariant: afterwards every pending record is still in the log.
pub proof fn lemma_publish_preserves_wf(c: ChannelModel, r: RecordModel)
    requires
        wf_channel(c),
        c.log.contains(r),
    ensures
        wf_channel(spec_publish(c, r)),
{
    let nc = spec_publish(c, r);
    assert forall|j: int, k: int|
        0 <= j < nc.subs.len() && 0 <= k < nc.subs[j].pending.len() implies nc.log.contains(
        #[trigger] nc.subs[j].pending[k],
    ) by {
        let s = c.subs[j];
        let ns = nc.subs[j];
        assert(ns == deliver(s, c.capacity, r));
        if k == ns.pending.len() - 1 {
            assert(ns.pending[k] == r);
        } else {
            if s.pending.len() < c.capacity {
                assert(ns.pending[k] == s.pending[k]);
            } else {
                assert(ns.pending[k] == s.pending[k + 1]);
            }
        }
    }
}

/// Append-before-broadcast: in a well-formed channel, every record a
/// subscriber holds (and hence every record it can ever observe) already
/// stands in the durable log.
pub proof fn lemma_append_before_broadcast(c: ChannelModel, j: int, k: int)
    requires
        wf_channel(c),
        0 <= j < c.subs.len(),
        0 <= k < c.subs[j].pending.len(),
    ensures
        c.log.contains(c.subs[j].pending[k]),
{
}

} // verus!
