//! The pub/sub broadcaster: topic-addressed fan-out of messages to the sinks of
//! the subscribers of a topic, without ever waiting on a sink.
//!
//! A sink is a bounded queue feeding one subscriber's stream. A publish makes
//! one non-blocking attempt per subscriber of its topic: a full sink misses
//! the message (counted as dropped), a closed one is removed.
use vstd::prelude::*;

verus! {

#[verifier::external_type_specification]
#[verifier::external_body]
#[verifier::reject_recursive_types(T)]
pub struct ExSender<T>(tokio::sync::mpsc::Sender<T>);

#[verifier::external_type_specification]
#[verifier::external_body]
#[verifier::reject_recursive_types(T)]
pub struct ExReceiver<T>(tokio::sync::mpsc::Receiver<T>);

/// A published message: its topic and its payload.
pub type Message = (String, String);

/// How many messages a sink holds before it drops new ones.
pub const SINK_CAPACITY: usize = 16;

/// What a non-blocking send into a sink came to.
#[derive(PartialEq, Eq, Structural, Clone, Copy, Debug)]
pub enum SendOutcome {
    Sent,
    Full,
    Closed,
}

/// Relies on `tokio::sync::mpsc::channel`: a bounded queue and its two ends;
/// it panics on a capacity of 0 or above `usize::MAX >> 3`.
#[verifier::external_body]
fn sink_channel(capacity: usize) -> (tokio::sync::mpsc::Sender<Message>, tokio::sync::mpsc::Receiver<Message>)
    requires
        0 < capacity <= usize::MAX / 8,
{
    tokio::sync::mpsc::channel(capacity)
}

/// Relies on `tokio::sync::mpsc::Sender::try_send`: queues the message without
/// waiting, or reports the queue full or its receiver gone.
#[verifier::external_body]
fn try_send(tx: &tokio::sync::mpsc::Sender<Message>, m: Message) -> SendOutcome {
    match tx.try_send(m) {
        Ok(()) => SendOutcome::Sent,
        Err(tokio::sync::mpsc::error::TrySendError::Full(_)) => SendOutcome::Full,
        Err(tokio::sync::mpsc::error::TrySendError::Closed(_)) => SendOutcome::Closed,
    }
}

/// Relies on the `Clone` of `tokio::sync::mpsc::Sender`: another handle to
/// the same queue.
#[verifier::external_body]
fn clone_sender(tx: &tokio::sync::mpsc::Sender<Message>) -> tokio::sync::mpsc::Sender<Message> {
    tx.clone()
}

/// One subscriber: its id, its topic and the sending end of its sink.
pub struct Sink {
    pub id: u64,
    pub topic: String,
    pub tx: tokio::sync::mpsc::Sender<Message>,
}

/// The view of a list of sinks: each one's id and topic.
pub open spec fn sinks_view(s: Seq<Sink>) -> Seq<(u64, Seq<char>)> {
    s.map_values(|k: Sink| (k.id, k.topic@))
}

/// The ids of the subscribers of topic `t`, in order of subscription.
pub open spec fn topic_ids(s: Seq<(u64, Seq<char>)>, t: Seq<char>) -> Seq<u64>
    decreases s.len(),
{
    if s.len() == 0 {
        Seq::empty()
    } else {
        let rest = topic_ids(s.drop_last(), t);
        if s.last().1 == t {
            rest.push(s.last().0)
        } else {
            rest
        }
    }
}

/// The subscribers of `s` whose id is not in `gone`, in order.
pub open spec fn without(s: Seq<(u64, Seq<char>)>, gone: Seq<u64>) -> Seq<(u64, Seq<char>)>
    decreases s.len(),
{
    if s.len() == 0 {
        Seq::empty()
    } else {
        let rest = without(s.drop_last(), gone);
        if gone.contains(s.last().0) {
            rest
        } else {
            rest.push(s.last())
        }
    }
}

/// The ids of the targets whose send found the sink closed, in order.
pub open spec fn closed_of(ids: Seq<u64>, outcomes: Seq<SendOutcome>) -> Seq<u64>
    decreases ids.len(),
{
    if ids.len() == 0 || outcomes.len() == 0 {
        Seq::empty()
    } else {
        let rest = closed_of(ids.drop_last(), outcomes.drop_last());
        if outcomes.last() == SendOutcome::Closed {
            rest.push(ids.last())
        } else {
            rest
        }
    }
}

/// The number of sends that found the sink full.
pub open spec fn full_count(outcomes: Seq<SendOutcome>) -> nat
    decreases outcomes.len(),
{
    if outcomes.len() == 0 {
        0
    } else {
        full_count(outcomes.drop_last()) + if outcomes.last() == SendOutcome::Full { 1nat } else { 0nat }
    }
}

/// The ids of a list of sinks.
pub open spec fn ids_of(s: Seq<Sink>) -> Seq<u64> {
    s.map_values(|k: Sink| k.id)
}

/// The topics and their subscribers' sinks.
pub struct Broadcaster {
    sinks: Vec<Sink>,
    next_id: u64,
    dropped: u64,
}

impl Broadcaster {
    /// The subscribers, each as its id and topic, in order of subscription.
    pub closed spec fn subscribers(&self) -> Seq<(u64, Seq<char>)> {
        sinks_view(self.sinks@)
    }

    /// The id the next subscriber gets.
    pub closed spec fn spec_next_id(&self) -> u64 {
        self.next_id
    }

    /// The number of messages that subscribers missed because their sink was
    /// full.
    pub closed spec fn spec_dropped(&self) -> u64 {
        self.dropped
    }

    /// Every subscriber's id is below the next id.
    pub open spec fn wf(&self) -> bool {
        forall|i: int| 0 <= i < self.subscribers().len()
            ==> (#[trigger] self.subscribers()[i]).0 < self.spec_next_id()
    }

    /// A broadcaster with no subscriber.
    pub fn new() -> (r: Broadcaster)
        ensures
            r.wf(),
            r.subscribers().len() == 0,
            r.spec_dropped() == 0,
    {
        Broadcaster { sinks: Vec::new(), next_id: 0, dropped: 0 }
    }

    /// Registers a subscriber of `topic`: a new sink with a fresh id, last in
    /// line; returns the id and the reading end of the sink.
    pub fn subscribe(&mut self, topic: String) -> (r: (u64, tokio::sync::mpsc::Receiver<Message>))
        requires
            old(self).wf(),
            old(self).spec_next_id() < u64::MAX,
        ensures
            final(self).wf(),
            r.0 == old(self).spec_next_id(),
            final(self).subscribers() == old(self).subscribers().push((r.0, topic@)),
            final(self).spec_next_id() == old(self).spec_next_id() + 1,
            final(self).spec_dropped() == old(self).spec_dropped(),
    {
        let (tx, rx) = sink_channel(SINK_CAPACITY);
        let id = self.next_id;
        let ghost old_view = self.subscribers();
        self.sinks.push(Sink { id, topic, tx });
        self.next_id = id + 1;
        assert(self.subscribers() =~= old_view.push((id, topic@)));
        (id, rx)
    }

    /// Whether another subscriber can get a fresh id.
    pub fn can_subscribe(&self) -> (r: bool)
        ensures
            r == (self.spec_next_id() < u64::MAX),
    {
        self.next_id < u64::MAX
    }

    /// The sinks of the subscribers of `topic`, in order of subscription.
    pub fn targets(&self, topic: &String) -> (r: Vec<Sink>)
        ensures
            ids_of(r@) == topic_ids(self.subscribers(), topic@),
    {
        let mut out: Vec<Sink> = Vec::new();
        let mut i: usize = 0;
        while i < self.sinks.len()
            invariant
                i <= self.sinks@.len(),
                ids_of(out@) == topic_ids(sinks_view(self.sinks@.take(i as int)), topic@),
            decreases self.sinks@.len() - i,
        {
            assert(sinks_view(self.sinks@.take(i as int + 1)).drop_last()
                =~= sinks_view(self.sinks@.take(i as int)));
            let s = &self.sinks[i];
            if s.topic.eq(topic) {
                let ghost before = out@;
                out.push(Sink { id: s.id, topic: s.topic.clone(), tx: clone_sender(&s.tx) });
                assert(ids_of(out@) =~= ids_of(before).push(s.id));
            }
            i = i + 1;
        }
        assert(self.sinks@.take(self.sinks@.len() as int) =~= self.sinks@);
        out
    }

    /// Removes the subscribers whose ids are in `closed`, and counts `full`
    /// more missed messages (saturating).
    pub fn reap(&mut self, closed: &Vec<u64>, full: u64)
        requires
            old(self).wf(),
        ensures
            final(self).wf(),
            final(self).subscribers() == without(old(self).subscribers(), closed@),
            final(self).spec_next_id() == old(self).spec_next_id(),
            final(self).spec_dropped() as int == if old(self).spec_dropped() as int + full as int > u64::MAX as int {
                u64::MAX as int
            } else {
                old(self).spec_dropped() as int + full as int
            },
    {
        let ghost old_view = self.subscribers();
        let mut kept: Vec<Sink> = Vec::new();
        let mut rest: Vec<Sink> = Vec::new();
        std::mem::swap(&mut self.sinks, &mut rest);
        let ghost all = rest@;
        let n = rest.len();
        proof {
            assert forall|j: int| 0 <= j < all.len() implies (#[trigger] all[j]).id < self.next_id by {
                assert(old_view[j].0 == all[j].id);
            }
        }
        let mut i: usize = 0;
        while rest.len() > 0
            invariant
                i <= all.len(),
                all.len() == n,
                rest@ == all.skip(i as int),
                sinks_view(kept@) == without(sinks_view(all.take(i as int)), closed@),
                forall|j: int| 0 <= j < kept@.len() ==> (#[trigger] kept@[j]).id < self.next_id,
                forall|j: int| 0 <= j < all.len() ==> (#[trigger] all[j]).id < self.next_id,
                sinks_view(all) == old_view,
            decreases rest@.len(),
        {
            let s = rest.remove(0);
            proof {
                assert(all[i as int] == s);
                assert(sinks_view(all.take(i as int + 1)).drop_last() =~= sinks_view(all.take(i as int)));
                assert(sinks_view(all.take(i as int + 1)).last() == (s.id, s.topic@));
                assert(rest@ =~= all.skip(i as int + 1));
            }
            if !contains_id(closed, s.id) {
                let ghost before = kept@;
                kept.push(s);
                assert(sinks_view(kept@) =~= sinks_view(before).push((s.id, s.topic@)));
            }
            i = i + 1;
        }
        proof {
            assert(all.take(i as int) =~= all);
        }
        self.sinks = kept;
        self.dropped = self.dropped.saturating_add(full);
    }

    /// Publishes `msg` on `topic`: one non-blocking send to each subscriber of
    /// the topic, in order; then removes the subscribers whose sink was closed
    /// and counts the sends that found a sink full. Returns each send's outcome.
    pub fn publish(&mut self, topic: &String, msg: &Message) -> (r: Vec<SendOutcome>)
        requires
            old(self).wf(),
        ensures
            final(self).wf(),
            r@.len() == topic_ids(old(self).subscribers(), topic@).len(),
            final(self).subscribers() == without(
                old(self).subscribers(),
                closed_of(topic_ids(old(self).subscribers(), topic@), r@),
            ),
            final(self).spec_next_id() == old(self).spec_next_id(),
            final(self).spec_dropped() as int == if old(self).spec_dropped() as int + full_count(r@) > u64::MAX as int {
                u64::MAX as int
            } else {
                old(self).spec_dropped() as int + full_count(r@)
            },
    {
        let targets = self.targets(topic);
        let outcomes = fan_out(&targets, msg);
        let closed = closed_ids(&targets, &outcomes);
        let full = count_full(&outcomes);
        self.reap(&closed, full);
        outcomes
    }

    /// The number of messages that subscribers missed because their sink was
    /// full.
    pub fn dropped(&self) -> (r: u64)
        ensures
            r == self.spec_dropped(),
    {
        self.dropped
    }
}

/// Whether `id` is among `ids`.
pub fn contains_id(ids: &Vec<u64>, id: u64) -> (r: bool)
    ensures
        r == ids@.contains(id),
{
    let mut i: usize = 0;
    while i < ids.len()
        invariant
            i <= ids@.len(),
            forall|j: int| 0 <= j < i ==> ids@[j] != id,
        decreases ids@.len() - i,
    {
        if ids[i] == id {
            assert(ids@[i as int] == id);
            return true;
        }
        i = i + 1;
    }
    false
}

/// One non-blocking send of the message to each target, in order: the outcome
/// of each.
pub fn fan_out(targets: &Vec<Sink>, msg: &Message) -> (r: Vec<SendOutcome>)
    ensures
        r@.len() == targets@.len(),
{
    let mut out: Vec<SendOutcome> = Vec::new();
    let mut i: usize = 0;
    while i < targets.len()
        invariant
            i <= targets@.len(),
            out@.len() == i,
        decreases targets@.len() - i,
    {
        out.push(try_send(&targets[i].tx, (msg.0.clone(), msg.1.clone())));
        i = i + 1;
    }
    out
}

/// The ids of the targets whose sink was closed, in order.
pub fn closed_ids(targets: &Vec<Sink>, outcomes: &Vec<SendOutcome>) -> (r: Vec<u64>)
    requires
        targets@.len() == outcomes@.len(),
    ensures
        r@ == closed_of(ids_of(targets@), outcomes@),
{
    let mut out: Vec<u64> = Vec::new();
    let mut i: usize = 0;
    while i < targets.len()
        invariant
            i <= targets@.len(),
            targets@.len() == outcomes@.len(),
            out@ == closed_of(ids_of(targets@).take(i as int), outcomes@.take(i as int)),
        decreases targets@.len() - i,
    {
        assert(ids_of(targets@).take(i as int + 1).drop_last() =~= ids_of(targets@).take(i as int));
        assert(outcomes@.take(i as int + 1).drop_last() =~= outcomes@.take(i as int));
        if outcomes[i] == SendOutcome::Closed {
            out.push(targets[i].id);
        }
        i = i + 1;
    }
    assert(ids_of(targets@).take(i as int) =~= ids_of(targets@));
    assert(outcomes@.take(i as int) =~= outcomes@);
    out
}

/// The number of sends that found the sink full (saturating).
pub fn count_full(outcomes: &Vec<SendOutcome>) -> (r: u64)
    ensures
        r as nat == if full_count(outcomes@) > u64::MAX as nat { u64::MAX as nat } else { full_count(outcomes@) },
{
    let mut n: u64 = 0;
    let mut i: usize = 0;
    while i < outcomes.len()
        invariant
            i <= outcomes@.len(),
            n as nat == if full_count(outcomes@.take(i as int)) > u64::MAX as nat {
                u64::MAX as nat
            } else {
                full_count(outcomes@.take(i as int))
            },
        decreases outcomes@.len() - i,
    {
        assert(outcomes@.take(i as int + 1).drop_last() =~= outcomes@.take(i as int));
        if outcomes[i] == SendOutcome::Full {
            n = n.saturating_add(1);
        }
        i = i + 1;
    }
    assert(outcomes@.take(i as int) =~= outcomes@);
    n
}

} // verus!
