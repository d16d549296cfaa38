//! The fan-out bus: every envelope the orchestrator emits is offered to every registered
//! subscriber; a subscriber that cannot take it at once is dropped, and the others go on
//! receiving in the order in which they registered.

use crate::protocol::BrainstemOutput;
use futures::channel::mpsc::Sender;
use vstd::prelude::*;

verus! {

/// The sending half of a bounded channel of the `futures` crate.
#[verifier::external_type_specification]
#[verifier::external_body]
#[verifier::reject_recursive_types(T)]
pub struct ExSender<T>(Sender<T>);

/// What became of an envelope offered to one subscriber.
#[derive(Debug, Clone, Copy, PartialEq, Eq)]
pub enum Delivery {
    /// The subscriber took it.
    Sent,
    /// The subscriber's buffer is full.
    Full,
    /// The subscriber's receiver is gone.
    Disconnected,
}

/// Offers an envelope to one subscriber, without waiting.
///
/// Trusted: calls `Sender::try_send` of `futures::channel::mpsc` and tells its error
/// apart with `is_disconnected`. What comes back depends on what the receiving task has
/// done, so nothing is claimed of it.
#[verifier::external_body]
fn try_deliver(subscriber: &mut Sender<BrainstemOutput>, output: BrainstemOutput) -> (delivery:
    Delivery)
{
    match subscriber.try_send(output) {
        Ok(()) => Delivery::Sent,
        Err(error) => if error.is_disconnected() {
            Delivery::Disconnected
        } else {
            Delivery::Full
        },
    }
}

/// Whether the subscriber at index `at` stays after one round of deliveries: it does if
/// it took the envelope, and also if nothing was offered to it.
pub open spec fn spec_stays(deliveries: Seq<Delivery>, at: int) -> bool {
    at >= deliveries.len() || deliveries[at] is Sent
}

/// The subscribers that stay after one round of deliveries, in their order; `deliveries`
/// tells what became of the offer to each subscriber, by index.
pub open spec fn spec_retained<S>(subscribers: Seq<S>, deliveries: Seq<Delivery>) -> Seq<S>
    decreases subscribers.len(),
{
    if subscribers.len() == 0 {
        Seq::empty()
    } else if spec_stays(deliveries, subscribers.len() - 1) {
        spec_retained(subscribers.drop_last(), deliveries).push(subscribers.last())
    } else {
        spec_retained(subscribers.drop_last(), deliveries)
    }
}

/// The number of deliveries that succeeded.
pub open spec fn spec_sent(deliveries: Seq<Delivery>) -> nat
    decreases deliveries.len(),
{
    if deliveries.len() == 0 {
        0
    } else if deliveries.last() is Sent {
        spec_sent(deliveries.drop_last()) + 1
    } else {
        spec_sent(deliveries.drop_last())
    }
}

/// As many subscribers stay as deliveries succeeded.
pub proof fn lemma_retained_len<S>(subscribers: Seq<S>, deliveries: Seq<Delivery>)
    requires
        subscribers.len() == deliveries.len(),
    ensures
        spec_retained(subscribers, deliveries).len() == spec_sent(deliveries),
    decreases subscribers.len(),
{
    if subscribers.len() != 0 {
        lemma_retained_cut(subscribers.drop_last(), deliveries);
        lemma_retained_len(subscribers.drop_last(), deliveries.drop_last());
    }
}

/// Deliveries beyond the last subscriber do not matter.
pub proof fn lemma_retained_cut<S>(subscribers: Seq<S>, deliveries: Seq<Delivery>)
    requires
        subscribers.len() < deliveries.len(),
    ensures
        spec_retained(subscribers, deliveries) == spec_retained(
            subscribers,
            deliveries.drop_last(),
        ),
    decreases subscribers.len(),
{
    if subscribers.len() != 0 {
        lemma_retained_cut(subscribers.drop_last(), deliveries);
    }
}

/// Dropping a subscriber does not disturb the others: a subscriber that took the envelope
/// stays, at the place that counts the subscribers before it that stayed; one that did
/// not is gone.
pub proof fn law_only_failed_subscribers_are_dropped<S>(
    subscribers: Seq<S>,
    deliveries: Seq<Delivery>,
    at: int,
)
    requires
        subscribers.len() == deliveries.len(),
        0 <= at < subscribers.len(),
    ensures
        spec_sent(deliveries.take(at)) <= spec_retained(subscribers, deliveries).len(),
        deliveries[at] is Sent ==> {
            &&& spec_sent(deliveries.take(at)) < spec_retained(subscribers, deliveries).len()
            &&& spec_retained(subscribers, deliveries)[spec_sent(deliveries.take(at)) as int]
                == subscribers[at]
        },
        spec_retained(subscribers, deliveries).len() <= subscribers.len(),
    decreases subscribers.len(),
{
    let last = subscribers.len() - 1;
    let shorter = subscribers.drop_last();
    let fewer = deliveries.drop_last();
    lemma_retained_len(shorter, fewer);
    lemma_retained_len(subscribers, deliveries);
    lemma_retained_cut(shorter, deliveries);
    if at == last {
        assert(deliveries.take(at) =~= fewer);
    } else {
        law_only_failed_subscribers_are_dropped(shorter, fewer, at);
        assert(fewer.take(at) =~= deliveries.take(at));
    }
    lemma_sent_bounded(deliveries);
}

/// No more deliveries succeed than were made.
pub proof fn lemma_sent_bounded(deliveries: Seq<Delivery>)
    ensures
        spec_sent(deliveries) <= deliveries.len(),
    decreases deliveries.len(),
{
    if deliveries.len() != 0 {
        lemma_sent_bounded(deliveries.drop_last());
    }
}

/// Keeps the subscribers that took the envelope, in their order, and drops the others;
/// a subscriber that nothing was offered to stays.
pub fn prune<S>(subscribers: &mut Vec<S>, deliveries: &Vec<Delivery>)
    ensures
        final(subscribers)@ == spec_retained(old(subscribers)@, deliveries@),
{
    let mut kept: Vec<S> = Vec::new();
    let ghost all = subscribers@;
    let mut i: usize = subscribers.len();
    proof {
        assert(all.take(i as int) =~= all);
        assert(kept@.reverse() =~= Seq::<S>::empty());
        assert(spec_retained(all, deliveries@) + Seq::<S>::empty() =~= spec_retained(
            all,
            deliveries@,
        ));
    }
    // Taken from the back, so that nothing has to be moved twice.
    while i > 0
        invariant
            i <= all.len(),
            subscribers@ == all.take(i as int),
            spec_retained(all.take(i as int), deliveries@) + kept@.reverse() == spec_retained(
                all,
                deliveries@,
            ),
        decreases i,
    {
        i -= 1;
        let subscriber = subscribers.pop().unwrap();
        proof {
            let before = all.take(i + 1);
            assert(before.drop_last() =~= all.take(i as int));
            assert(before.last() == subscriber);
        }
        let ghost earlier = kept@;
        let stays = if i >= deliveries.len() {
            true
        } else {
            match deliveries[i] {
                Delivery::Sent => true,
                _ => false,
            }
        };
        if stays {
            kept.push(subscriber);
            proof {
                let inner = spec_retained(all.take(i as int), deliveries@);
                assert(kept@.reverse() =~= seq![subscriber] + earlier.reverse());
                assert(inner.push(subscriber) + earlier.reverse() =~= inner + (seq![subscriber]
                    + earlier.reverse()));
            }
        }
    }
    proof {
        assert(all.take(0) =~= Seq::<S>::empty());
        assert(Seq::<S>::empty() + kept@.reverse() =~= kept@.reverse());
    }
    let ghost backwards = kept@;
    while kept.len() > 0
        invariant
            subscribers@ + kept@.reverse() == backwards.reverse(),
        decreases kept.len(),
    {
        let ghost before = kept@;
        let ghost front = subscribers@;
        let subscriber = kept.pop().unwrap();
        subscribers.push(subscriber);
        proof {
            assert(before.reverse() =~= seq![subscriber] + kept@.reverse());
            assert(front.push(subscriber) + kept@.reverse() =~= front + (seq![subscriber]
                + kept@.reverse()));
        }
    }
    proof {
        assert(subscribers@ + kept@.reverse() =~= subscribers@);
    }
}

/// The bridge between the orchestrator's outbound channel and the subscribers.
pub struct Bridge {
    subscribers: Vec<Sender<BrainstemOutput>>,
}

impl Bridge {
    /// The number of registered subscribers.
    pub closed spec fn count(&self) -> nat {
        self.subscribers@.len()
    }

    /// A bridge without subscribers.
    pub fn new() -> (bridge: Self)
        ensures
            bridge.count() == 0,
    {
        Bridge { subscribers: Vec::new() }
    }

    /// The number of registered subscribers.
    pub fn len(&self) -> (count: usize)
        ensures
            count == self.count(),
    {
        self.subscribers.len()
    }

    /// Registers a subscriber, after those already registered.
    pub fn subscribe(&mut self, subscriber: Sender<BrainstemOutput>)
        ensures
            final(self).count() == old(self).count() + 1,
    {
        self.subscribers.push(subscriber);
    }

    /// Offers a copy of the envelope to every subscriber, in the order of registration,
    /// and drops each subscriber that did not take it. Returns what became of each offer:
    /// as many subscribers stay as offers succeeded.
    pub fn broadcast(&mut self, output: &BrainstemOutput) -> (deliveries: Vec<Delivery>)
        ensures
            deliveries@.len() == old(self).count(),
            final(self).count() == spec_sent(deliveries@),
    {
        let mut deliveries: Vec<Delivery> = Vec::new();
        let mut i: usize = 0;
        let count = self.subscribers.len();
        let mut subscribers: Vec<Sender<BrainstemOutput>> = Vec::new();
        std::mem::swap(&mut subscribers, &mut self.subscribers);
        let mut offered: Vec<Sender<BrainstemOutput>> = Vec::new();
        // Offers are made from the first subscriber to the last.
        let mut waiting: Vec<Sender<BrainstemOutput>> = Vec::new();
        while subscribers.len() > 0
            invariant
                subscribers.len() + waiting.len() == count,
            decreases subscribers.len(),
        {
            let subscriber = subscribers.pop().unwrap();
            waiting.push(subscriber);
        }
        while waiting.len() > 0
            invariant
                waiting.len() + offered.len() == count,
                deliveries.len() == offered.len(),
            decreases waiting.len(),
        {
            let mut subscriber = waiting.pop().unwrap();
            let delivery = try_deliver(&mut subscriber, output.clone());
            deliveries.push(delivery);
            offered.push(subscriber);
        }
        let ghost everyone = offered@;
        prune(&mut offered, &deliveries);
        proof {
            lemma_retained_len(everyone, deliveries@);
        }
        self.subscribers = offered;
        deliveries
    }
}

} // verus!
