//! The RPC server's shared state: the plugin reference registry and the
//! event bus, the single point of truth behind every session. The network
//! listener itself lives with the host's I/O layer; this core decides which
//! port is asked for, turns inbound boot messages into registry transitions,
//! and fans events out to subscribers.
use vstd::prelude::*;

use crate::bus::EventBus;
use crate::bus::SubscriberModel;
use crate::bus::publish_step;
use crate::bus::recv_result;
use crate::bus::recv_step;
use crate::bus::unsubscribe_step;
use crate::events::BootResponse;
use crate::events::InternalEvent;
use crate::events::InternalEventPayload;
use crate::registry::PluginRef;
use crate::registry::PluginRegistry;
use crate::registry::PluginState;
use crate::registry::BootOutcome;
use crate::registry::boot_step;
use crate::registry::bootable;
use crate::registry::registry_wf;

verus! {

/// What one event does to the registry when routed: a boot-response is a
/// boot of the referenced plugin; every other payload leaves the registry
/// alone.
pub open spec fn route_step(regs: Seq<PluginRef>, e: InternalEvent) -> Seq<PluginRef> {
    match e.payload {
        InternalEventPayload::BootResponse(resp) => boot_step(regs, e.plugin_ref_id, resp),
        InternalEventPayload::Other => regs,
    }
}

/// A whole stream of events routed in arrival order.
pub open spec fn route_all(regs: Seq<PluginRef>, events: Seq<InternalEvent>) -> Seq<PluginRef>
    decreases events.len(),
{
    if events.len() == 0 {
        regs
    } else {
        route_all(route_step(regs, events[0]), events.drop_first())
    }
}

/// Routing one more event after a routed stream is the same as routing the
/// stream with that event appended: delivery order is what the registry
/// sees.
pub proof fn lemma_route_all_snoc(
    regs: Seq<PluginRef>,
    events: Seq<InternalEvent>,
    e: InternalEvent,
)
    ensures
        route_all(regs, events.push(e)) == route_step(route_all(regs, events), e),
    decreases events.len(),
{
    if events.len() == 0 {
        assert(events.push(e).drop_first() =~= Seq::<InternalEvent>::empty());
        assert(events.push(e)[0] == e);
        assert(route_all(regs, events.push(e)) == route_all(
            route_step(regs, e),
            Seq::<InternalEvent>::empty(),
        ));
        assert(route_all(route_step(regs, e), Seq::<InternalEvent>::empty()) == route_step(
            regs,
            e,
        ));
        assert(route_all(regs, events) == regs);
    } else {
        assert(events.push(e)[0] == events[0]);
        assert(events.push(e).drop_first() =~= events.drop_first().push(e));
        lemma_route_all_snoc(route_step(regs, events[0]), events.drop_first(), e);
        assert(route_all(regs, events.push(e)) == route_all(
            route_step(regs, events[0]),
            events.drop_first().push(e),
        ));
        assert(route_all(regs, events) == route_all(
            route_step(regs, events[0]),
            events.drop_first(),
        ));
    }
}

/// The port the listener should ask the operating system for: exactly the
/// externally configured one when there is one, otherwise 0, which asks for
/// an ephemeral port and never panics.
pub fn listen_port(configured: Option<u16>) -> (port: u16)
    ensures
        configured is Some ==> port == configured->0,
        configured is None ==> port == 0,
{
    match configured {
        Some(p) => p,
        None => 0,
    }
}

/// The state shared by the accept loop, every session and the boot router.
pub struct PluginRuntimeServer {
    pub registry: PluginRegistry,
    pub bus: EventBus,
}

impl PluginRuntimeServer {
    /// A server seeded from the discovered plugin directories: one registry
    /// entry per directory, each Discovered under a unique id, and a bus
    /// with no subscribers yet.
    pub fn new(plugin_dirs: Vec<String>) -> (s: Self)
        ensures
            registry_wf(s.registry@),
            s.registry@.len() == plugin_dirs@.len(),
            forall|i: int|
                0 <= i < plugin_dirs@.len() ==> #[trigger] s.registry@[i] == (PluginRef {
                    ref_id: i as usize,
                    dir: plugin_dirs@[i],
                    state: PluginState::Discovered,
                    boot_response: None,
                }),
            s.bus@ == Seq::<SubscriberModel>::empty(),
    {
        PluginRuntimeServer {
            registry: PluginRegistry::from_dirs(plugin_dirs),
            bus: EventBus::new(),
        }
    }

    /// Registers a new bus endpoint; the registry is untouched.
    pub fn subscribe(&mut self) -> (id: usize)
        ensures
            id == old(self).bus@.len(),
            final(self).bus@ == old(self).bus@.push(
                SubscriberModel { active: true, queue: Seq::empty() },
            ),
            final(self).registry@ == old(self).registry@,
    {
        self.bus.subscribe()
    }

    /// Retires a bus endpoint; unknown or retired ids are a no-op. The
    /// registry is untouched.
    pub fn unsubscribe(&mut self, id: usize) -> (was_active: bool)
        ensures
            final(self).bus@ == unsubscribe_step(old(self).bus@, id),
            was_active == (id < old(self).bus@.len() && old(self).bus@[id as int].active),
            final(self).registry@ == old(self).registry@,
    {
        self.bus.unsubscribe(id)
    }

    /// Publishes one event to every active subscriber; the registry is
    /// untouched. Sessions call this for every decoded inbound message.
    pub fn publish(&mut self, e: &InternalEvent)
        ensures
            final(self).bus@ == publish_step(old(self).bus@, *e),
            final(self).registry@ == old(self).registry@,
    {
        self.bus.publish(e)
    }

    /// Hands out the oldest event queued for the endpoint `id`, if any; the
    /// registry is untouched.
    pub fn recv(&mut self, id: usize) -> (r: Option<InternalEvent>)
        ensures
            r == recv_result(old(self).bus@, id),
            final(self).bus@ == recv_step(old(self).bus@, id),
            final(self).registry@ == old(self).registry@,
    {
        self.bus.recv(id)
    }

    /// Applies one boot-response to the registry (see
    /// `PluginRegistry::boot`); the bus is untouched.
    pub fn boot_plugin(&mut self, ref_id: usize, resp: &BootResponse) -> (outcome: BootOutcome)
        requires
            registry_wf(old(self).registry@),
        ensures
            registry_wf(final(self).registry@),
            final(self).registry@ == boot_step(old(self).registry@, ref_id, *resp),
            final(self).bus@ == old(self).bus@,
            outcome is Booted <==> (ref_id < old(self).registry@.len() && bootable(
                old(self).registry@[ref_id as int].state,
            )),
            outcome is UnknownRef <==> ref_id >= old(self).registry@.len(),
    {
        self.registry.boot(ref_id, resp)
    }

    /// Routes one event: a boot-response becomes a `boot_plugin` call on the
    /// referenced plugin, every other payload is ignored. The bus is
    /// untouched, so routing never feeds back into delivery.
    pub fn handle_event(&mut self, e: &InternalEvent)
        requires
            registry_wf(old(self).registry@),
        ensures
            registry_wf(final(self).registry@),
            final(self).registry@ == route_step(old(self).registry@, *e),
            final(self).bus@ == old(self).bus@,
    {
        match &e.payload {
            InternalEventPayload::BootResponse(resp) => {
                let _ = self.registry.boot(e.plugin_ref_id, resp);
            },
            InternalEventPayload::Other => {},
        }
    }
}

} // verus!
