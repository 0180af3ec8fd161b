//! The event bus: process-wide fan-out of internal events to independent
//! subscribers. Every active subscriber holds its own queue, so each one
//! sees every published event, in publish order, at its own pace; a slow
//! subscriber never delays another. Subscriber slots are retired on
//! unsubscribe, never reused, so an id stays valid for the life of the bus.
use vstd::prelude::*;

use crate::events::InternalEvent;

verus! {

/// The model of one subscriber endpoint: whether it is still subscribed,
/// and the events published to it that it has not yet received.
#[verifier::ext_equal]
pub struct SubscriberModel {
    pub active: bool,
    pub queue: Seq<InternalEvent>,
}

/// What one publication does: every active subscriber's queue grows by the
/// event; retired subscribers see nothing.
pub open spec fn publish_step(bus: Seq<SubscriberModel>, e: InternalEvent) -> Seq<
    SubscriberModel,
> {
    bus.map(
        |i: int, s: SubscriberModel|
            if s.active {
                SubscriberModel { active: true, queue: s.queue.push(e) }
            } else {
                s
            },
    )
}

/// A whole sequence of publications, in order.
pub open spec fn publish_all(bus: Seq<SubscriberModel>, events: Seq<InternalEvent>) -> Seq<
    SubscriberModel,
>
    decreases events.len(),
{
    if events.len() == 0 {
        bus
    } else {
        publish_all(publish_step(bus, events[0]), events.drop_first())
    }
}

/// What unsubscribing does: the endpoint is retired in place; an unknown id
/// is a no-op.
pub open spec fn unsubscribe_step(bus: Seq<SubscriberModel>, id: usize) -> Seq<SubscriberModel> {
    if id < bus.len() {
        bus.update(id as int, SubscriberModel { active: false, queue: bus[id as int].queue })
    } else {
        bus
    }
}

/// Whether a receive on `id` would deliver an event: the endpoint exists, is
/// still subscribed, and has something queued.
pub open spec fn can_recv(bus: Seq<SubscriberModel>, id: usize) -> bool {
    id < bus.len() && bus[id as int].active && bus[id as int].queue.len() > 0
}

/// The event a receive on `id` delivers: the oldest queued one.
pub open spec fn recv_result(bus: Seq<SubscriberModel>, id: usize) -> Option<InternalEvent> {
    if can_recv(bus, id) {
        Some(bus[id as int].queue[0])
    } else {
        None
    }
}

/// What a receive does to the bus: only the receiving subscriber's queue
/// changes, and only by losing its oldest event.
pub open spec fn recv_step(bus: Seq<SubscriberModel>, id: usize) -> Seq<SubscriberModel> {
    if can_recv(bus, id) {
        bus.update(
            id as int,
            SubscriberModel { active: true, queue: bus[id as int].queue.drop_first() },
        )
    } else {
        bus
    }
}

struct Subscriber {
    active: bool,
    queue: Vec<InternalEvent>,
}

/// The multi-producer, multi-consumer broadcast bus.
pub struct EventBus {
    subs: Vec<Subscriber>,
}

impl View for EventBus {
    type V = Seq<SubscriberModel>;

    closed spec fn view(&self) -> Seq<SubscriberModel> {
        self.subs@.map(|i: int, s: Subscriber| SubscriberModel { active: s.active, queue: s.queue@ })
    }
}

impl EventBus {
    /// A bus with no subscribers.
    pub fn new() -> (r: Self)
        ensures
            r@ == Seq::<SubscriberModel>::empty(),
    {
        let bus = EventBus { subs: Vec::new() };
        proof {
            assert(bus@ =~= Seq::<SubscriberModel>::empty());
        }
        bus
    }

    /// Registers a new independent endpoint and returns its id. Never
    /// blocks, and existing subscribers are untouched.
    pub fn subscribe(&mut self) -> (id: usize)
        ensures
            id == old(self)@.len(),
            final(self)@ == old(self)@.push(
                SubscriberModel { active: true, queue: Seq::empty() },
            ),
    {
        let id = self.subs.len();
        self.subs.push(Subscriber { active: true, queue: Vec::new() });
        proof {
            assert(self@ =~= old(self)@.push(
                SubscriberModel { active: true, queue: Seq::empty() },
            ));
        }
        id
    }

    /// Delivers `e` to every active subscriber; with no subscribers this
    /// succeeds and does nothing.
    pub fn publish(&mut self, e: &InternalEvent)
        ensures
            final(self)@ == publish_step(old(self)@, *e),
    {
        let mut i: usize = 0;
        while i < self.subs.len()
            invariant
                i <= self.subs@.len(),
                self.subs@.len() == old(self).subs@.len(),
                forall|j: int| 0 <= j < i ==> #[trigger] self@[j] == publish_step(old(self)@, *e)[j],
                forall|j: int|
                    i <= j < self.subs@.len() ==> #[trigger] self.subs@[j] == old(self).subs@[j],
            decreases self.subs@.len() - i,
        {
            let ghost prev = self.subs@;
            let ghost prev_view = self@;
            if self.subs[i].active {
                let mut sub = self.subs.remove(i);
                sub.queue.push(e.clone());
                self.subs.insert(i, sub);
                proof {
                    assert(self.subs@ =~= prev.update(i as int, self.subs@[i as int]));
                    assert(self@ =~= prev_view.update(
                        i as int,
                        SubscriberModel {
                            active: true,
                            queue: prev_view[i as int].queue.push(*e),
                        },
                    ));
                }
            }
            i += 1;
        }
        proof {
            assert(self@ =~= publish_step(old(self)@, *e));
        }
    }

    /// Hands out the oldest event queued for `id`, if that endpoint is still
    /// subscribed and has one; otherwise changes nothing. Other subscribers
    /// are untouched either way.
    pub fn recv(&mut self, id: usize) -> (r: Option<InternalEvent>)
        ensures
            r == recv_result(old(self)@, id),
            final(self)@ == recv_step(old(self)@, id),
    {
        if id < self.subs.len() && self.subs[id].active && self.subs[id].queue.len() > 0 {
            let mut sub = self.subs.remove(id);
            let ev = sub.queue.remove(0);
            self.subs.insert(id, sub);
            proof {
                assert(self@ =~= recv_step(old(self)@, id));
            }
            Some(ev)
        } else {
            None
        }
    }

    /// Retires the endpoint `id`: later publications are no longer delivered
    /// to it and a later receive on it returns nothing. Unsubscribing an
    /// unknown or already retired id is a no-op, not an error. Returns
    /// whether the endpoint was subscribed until now.
    pub fn unsubscribe(&mut self, id: usize) -> (was_active: bool)
        ensures
            final(self)@ == unsubscribe_step(old(self)@, id),
            was_active == (id < old(self)@.len() && old(self)@[id as int].active),
    {
        if id < self.subs.len() {
            let was = self.subs[id].active;
            let mut sub = self.subs.remove(id);
            sub.active = false;
            self.subs.insert(id, sub);
            proof {
                assert(self@ =~= unsubscribe_step(old(self)@, id));
            }
            was
        } else {
            false
        }
    }

    /// Broadcast fan-out: over any sequence of publications, every
    /// subscriber active throughout is handed the full sequence, in publish
    /// order, appended to whatever it had queued; a retired subscriber is
    /// handed nothing. What one subscriber has or has not yet received
    /// (its queue) plays no part in what another is handed.
    pub proof fn lemma_broadcast_fanout(bus: Seq<SubscriberModel>, events: Seq<InternalEvent>)
        ensures
            publish_all(bus, events).len() == bus.len(),
            forall|i: int|
                0 <= i < bus.len() && bus[i].active ==> #[trigger] publish_all(bus, events)[i]
                    == (SubscriberModel { active: true, queue: bus[i].queue + events }),
            forall|i: int|
                0 <= i < bus.len() && !bus[i].active ==> #[trigger] publish_all(bus, events)[i]
                    == bus[i],
        decreases events.len(),
    {
        if events.len() == 0 {
            assert forall|i: int| 0 <= i < bus.len() && bus[i].active implies #[trigger] publish_all(
                bus,
                events,
            )[i] == (SubscriberModel { active: true, queue: bus[i].queue + events }) by {
                assert(bus[i].queue + events =~= bus[i].queue);
            }
        } else {
            let stepped = publish_step(bus, events[0]);
            let rest = events.drop_first();
            Self::lemma_broadcast_fanout(stepped, rest);
            assert forall|i: int| 0 <= i < bus.len() && bus[i].active implies #[trigger] publish_all(
                bus,
                events,
            )[i] == (SubscriberModel { active: true, queue: bus[i].queue + events }) by {
                assert(stepped[i] == (SubscriberModel {
                    active: true,
                    queue: bus[i].queue.push(events[0]),
                }));
                assert(bus[i].queue.push(events[0]) + rest =~= bus[i].queue + events);
            }
            assert forall|i: int|
                0 <= i < bus.len() && !bus[i].active implies #[trigger] publish_all(bus, events)[i]
                == bus[i] by {
                assert(stepped[i] == bus[i]);
            }
        }
    }

    /// Unsubscribing twice is the same as unsubscribing once: the second
    /// call is a no-op, not an error.
    pub proof fn lemma_unsubscribe_idempotent(bus: Seq<SubscriberModel>, id: usize)
        ensures
            unsubscribe_step(unsubscribe_step(bus, id), id) == unsubscribe_step(bus, id),
    {
        assert(unsubscribe_step(unsubscribe_step(bus, id), id) =~= unsubscribe_step(bus, id));
    }

    /// After an unsubscribe, no publication — however many follow — is
    /// delivered to that subscriber: its queue never grows again and the
    /// endpoint stays retired.
    pub proof fn lemma_unsubscribe_silences(
        bus: Seq<SubscriberModel>,
        id: usize,
        events: Seq<InternalEvent>,
    )
        requires
            id < bus.len(),
        ensures
            !publish_all(unsubscribe_step(bus, id), events)[id as int].active,
            publish_all(unsubscribe_step(bus, id), events)[id as int].queue == bus[id as int].queue,
    {
        Self::lemma_broadcast_fanout(unsubscribe_step(bus, id), events);
    }

    /// A receive by one subscriber leaves every other subscriber exactly as
    /// it was: consumption is independent per subscriber.
    pub proof fn lemma_recv_isolated(bus: Seq<SubscriberModel>, id: usize, other: int)
        requires
            0 <= other < bus.len(),
            other != id,
        ensures
            recv_step(bus, id)[other] == bus[other],
    {
    }

    /// Whether a receive on `id` would deliver an event now.
    pub fn has_pending(&self, id: usize) -> (b: bool)
        ensures
            b == can_recv(self@, id),
    {
        id < self.subs.len() && self.subs[id].active && self.subs[id].queue.len() > 0
    }

    /// Whether the endpoint `id` exists and is still subscribed.
    pub fn is_active(&self, id: usize) -> (b: bool)
        ensures
            b == (id < self@.len() && self@[id as int].active),
    {
        id < self.subs.len() && self.subs[id].active
    }
}

} // verus!
