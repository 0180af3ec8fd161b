//! The plugin manager: the one handle the host application holds. It owns
//! the server state, keeps the internal subscription that turns
//! boot-response events into registry transitions, and performs the orderly
//! shutdown the host calls before process exit.
use vstd::prelude::*;

use crate::bus::SubscriberModel;
use crate::bus::publish_step;
use crate::bus::unsubscribe_step;
use crate::events::InternalEvent;
use crate::registry::PluginRef;
use crate::registry::PluginState;
use crate::registry::registry_wf;
use crate::registry::terminate_all_step;
use crate::server::PluginRuntimeServer;
use crate::server::lemma_route_all_snoc;
use crate::server::route_all;

verus! {

/// The facade the host uses to start and stop the plugin subsystem. The
/// boot router is an ordinary bus subscription held by the manager, so
/// transport decoding and state mutation stay decoupled: sessions publish,
/// the router applies.
pub struct PluginManager {
    server: PluginRuntimeServer,
    router_id: usize,
}

impl PluginManager {
    /// The id of the internal boot-routing subscription.
    pub closed spec fn router(&self) -> usize {
        self.router_id
    }

    /// The registry the manager's server holds.
    pub closed spec fn registry_view(&self) -> Seq<PluginRef> {
        self.server.registry@
    }

    /// The bus the manager's server holds.
    pub closed spec fn bus_view(&self) -> Seq<SubscriberModel> {
        self.server.bus@
    }

    /// The manager's invariant: the registry is well formed and the router's
    /// endpoint exists on the bus.
    pub open spec fn wf(&self) -> bool {
        &&& registry_wf(self.registry_view())
        &&& (self.router() as int) < self.bus_view().len()
    }

    /// Starts the subsystem over the discovered plugin directories: the
    /// registry holds one Discovered entry per directory, each under a
    /// unique id, and the boot router is the bus's first subscriber.
    /// Booting is asynchronous and best-effort; nothing here waits for it.
    pub fn new(plugin_dirs: Vec<String>) -> (m: Self)
        ensures
            m.wf(),
            m.registry_view().len() == plugin_dirs@.len(),
            forall|i: int|
                0 <= i < plugin_dirs@.len() ==> #[trigger] m.registry_view()[i] == (PluginRef {
                    ref_id: i as usize,
                    dir: plugin_dirs@[i],
                    state: PluginState::Discovered,
                    boot_response: None,
                }),
            forall|i: int, j: int|
                0 <= i < m.registry_view().len() && 0 <= j < m.registry_view().len() && i != j
                    ==> #[trigger] m.registry_view()[i].ref_id
                    != #[trigger] m.registry_view()[j].ref_id,
            m.bus_view() == Seq::<SubscriberModel>::empty().push(
                SubscriberModel { active: true, queue: Seq::empty() },
            ),
            m.router() == 0,
    {
        let mut server = PluginRuntimeServer::new(plugin_dirs);
        let router_id = server.subscribe();
        PluginManager { server, router_id }
    }

    /// The number of registered plugin references.
    pub fn plugin_count(&self) -> (n: usize)
        ensures
            n == self.registry_view().len(),
    {
        self.server.registry.len()
    }

    /// The state of the referenced plugin, or None for an unknown id.
    pub fn plugin_state(&self, ref_id: usize) -> (s: Option<PluginState>)
        ensures
            ref_id < self.registry_view().len() ==> s == Some(
                self.registry_view()[ref_id as int].state,
            ),
            ref_id >= self.registry_view().len() ==> s is None,
    {
        self.server.registry.state_of(ref_id)
    }

    /// The metadata recorded for the referenced plugin, or None if the id
    /// is unknown or the plugin has not booted.
    pub fn plugin_boot_response(&self, ref_id: usize) -> (r: Option<crate::events::BootResponse>)
        ensures
            ref_id < self.registry_view().len() ==> r == self.registry_view()[ref_id as int].boot_response,
            ref_id >= self.registry_view().len() ==> r is None,
    {
        self.server.registry.boot_response_of(ref_id)
    }

    /// Publishes one event to every active subscriber, the boot router
    /// among them; the registry is untouched.
    pub fn publish(&mut self, e: &InternalEvent)
        ensures
            final(self).bus_view() == publish_step(old(self).bus_view(), *e),
            final(self).registry_view() == old(self).registry_view(),
            final(self).router() == old(self).router(),
            old(self).wf() ==> final(self).wf(),
    {
        self.server.publish(e)
    }

    /// Registers an external bus endpoint, independent of the boot router;
    /// the registry is untouched.
    pub fn subscribe(&mut self) -> (id: usize)
        ensures
            id == old(self).bus_view().len(),
            final(self).bus_view() == old(self).bus_view().push(
                SubscriberModel { active: true, queue: Seq::empty() },
            ),
            final(self).registry_view() == old(self).registry_view(),
            final(self).router() == old(self).router(),
            old(self).wf() ==> final(self).wf(),
    {
        self.server.subscribe()
    }

    /// Retires a bus endpoint; unknown or retired ids are a no-op. The
    /// registry is untouched.
    pub fn unsubscribe(&mut self, id: usize) -> (was_active: bool)
        ensures
            final(self).bus_view() == unsubscribe_step(old(self).bus_view(), id),
            was_active == (id < old(self).bus_view().len() && old(self).bus_view()[id as int].active),
            final(self).registry_view() == old(self).registry_view(),
            final(self).router() == old(self).router(),
            old(self).wf() ==> final(self).wf(),
    {
        self.server.unsubscribe(id)
    }

    /// Hands out the oldest event queued for the endpoint `id`, if any; the
    /// registry is untouched.
    pub fn recv(&mut self, id: usize) -> (r: Option<InternalEvent>)
        ensures
            r == crate::bus::recv_result(old(self).bus_view(), id),
            final(self).bus_view() == crate::bus::recv_step(old(self).bus_view(), id),
            final(self).registry_view() == old(self).registry_view(),
            final(self).router() == old(self).router(),
            old(self).wf() ==> final(self).wf(),
    {
        self.server.recv(id)
    }

    /// Runs the boot router until its queue is empty: every pending event is
    /// received in publish order and routed, so each queued boot-response
    /// boots its plugin. Other subscribers are untouched. After cleanup the
    /// router is retired and this does nothing.
    pub fn drain_events(&mut self)
        requires
            old(self).wf(),
        ensures
            final(self).wf(),
            final(self).router() == old(self).router(),
            old(self).bus_view()[old(self).router() as int].active ==> {
                &&& final(self).registry_view() == route_all(
                    old(self).registry_view(),
                    old(self).bus_view()[old(self).router() as int].queue,
                )
                &&& final(self).bus_view() == old(self).bus_view().update(
                    old(self).router() as int,
                    SubscriberModel { active: true, queue: Seq::empty() },
                )
            },
            !old(self).bus_view()[old(self).router() as int].active ==> {
                &&& final(self).registry_view() == old(self).registry_view()
                &&& final(self).bus_view() == old(self).bus_view()
            },
    {
        let ghost r = self.router_id as int;
        let ghost orig_regs = self.server.registry@;
        let ghost orig_bus = self.server.bus@;
        let ghost orig_queue = self.server.bus@[r].queue;
        let ghost mut k: int = 0;
        proof {
            if orig_bus[r].active {
                assert(orig_queue.skip(0) =~= orig_queue);
                assert(self.server.bus@ =~= orig_bus.update(
                    r,
                    SubscriberModel { active: true, queue: orig_queue.skip(0) },
                ));
                assert(orig_queue.take(0) =~= Seq::<InternalEvent>::empty());
                assert(route_all(orig_regs, orig_queue.take(0)) == orig_regs);
            }
        }
        while self.server.bus.has_pending(self.router_id)
            invariant
                self.wf(),
                self.router_id == old(self).router_id,
                r == self.router_id as int,
                0 <= r < orig_bus.len(),
                orig_queue == orig_bus[r].queue,
                0 <= k <= orig_queue.len(),
                orig_bus[r].active ==> {
                    &&& self.server.bus@ == orig_bus.update(
                        r,
                        SubscriberModel { active: true, queue: orig_queue.skip(k) },
                    )
                    &&& self.server.registry@ == route_all(orig_regs, orig_queue.take(k))
                },
                !orig_bus[r].active ==> {
                    &&& self.server.bus@ == orig_bus
                    &&& self.server.registry@ == orig_regs
                },
            decreases self.server.bus@[self.router_id as int].queue.len(),
        {
            let received = self.server.recv(self.router_id);
            match received {
                Some(ev) => {
                    self.server.handle_event(&ev);
                    proof {
                        assert(orig_bus[r].active);
                        assert(ev == orig_queue.skip(k)[0]);
                        assert(ev == orig_queue[k]);
                        assert(orig_queue.skip(k).drop_first() =~= orig_queue.skip(k + 1));
                        assert(orig_queue.take(k + 1) =~= orig_queue.take(k).push(orig_queue[k]));
                        lemma_route_all_snoc(orig_regs, orig_queue.take(k), orig_queue[k]);
                        assert(self.server.bus@ =~= orig_bus.update(
                            r,
                            SubscriberModel { active: true, queue: orig_queue.skip(k + 1) },
                        ));
                        k = k + 1;
                    }
                },
                None => {
                    proof {
                        assert(false);
                    }
                },
            }
        }
        proof {
            if orig_bus[r].active {
                assert(orig_queue.skip(k).len() == 0);
                assert(k == orig_queue.len());
                assert(orig_queue.skip(k) =~= Seq::<InternalEvent>::empty());
                assert(orig_queue.take(k) =~= orig_queue);
            }
        }
    }

    /// Orderly shutdown, safe to call on exit: the boot router is
    /// unsubscribed, so no further event reaches the registry through it,
    /// and every plugin reference is terminated with whatever metadata it
    /// had recorded. Calling it again changes nothing further.
    pub fn cleanup(&mut self)
        requires
            old(self).wf(),
        ensures
            final(self).wf(),
            final(self).router() == old(self).router(),
            final(self).registry_view() == terminate_all_step(old(self).registry_view()),
            final(self).bus_view() == unsubscribe_step(old(self).bus_view(), old(self).router()),
    {
        let _ = self.server.unsubscribe(self.router_id);
        self.server.registry.terminate_all();
    }
}

} // verus!
