//! Typed internal events exchanged between the RPC sessions, the event bus,
//! and the boot-routing subscriber.
use vstd::prelude::*;

verus! {

/// A plugin's self-description, reported during the boot handshake and
/// recorded on its registry entry once the handshake completes.
pub struct BootResponse {
    pub name: String,
    pub version: String,
}

impl Clone for BootResponse {
    fn clone(&self) -> (res: Self)
        ensures
            res == *self,
    {
        BootResponse { name: self.name.clone(), version: self.version.clone() }
    }
}

/// The tagged payload of an internal event. Boot responses drive the
/// handshake; every other kind of plugin traffic is opaque to this core and
/// is carried by `Other`.
pub enum InternalEventPayload {
    BootResponse(BootResponse),
    Other,
}

impl Clone for InternalEventPayload {
    fn clone(&self) -> (res: Self)
        ensures
            res == *self,
    {
        match self {
            InternalEventPayload::BootResponse(resp) => InternalEventPayload::BootResponse(
                resp.clone(),
            ),
            InternalEventPayload::Other => InternalEventPayload::Other,
        }
    }
}

/// An event envelope: the id of the plugin reference the event is about
/// (a lookup key, never ownership) together with the payload.
pub struct InternalEvent {
    pub plugin_ref_id: usize,
    pub payload: InternalEventPayload,
}

impl Clone for InternalEvent {
    fn clone(&self) -> (res: Self)
        ensures
            res == *self,
    {
        InternalEvent { plugin_ref_id: self.plugin_ref_id, payload: self.payload.clone() }
    }
}

} // verus!
