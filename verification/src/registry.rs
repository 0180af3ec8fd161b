//! The plugin reference registry: one entry per discovered plugin directory,
//! each entry carrying the boot-handshake state machine
//! Discovered -> Connected -> Booted, with Terminated as the absorbing
//! terminal state.
use vstd::prelude::*;

use crate::events::BootResponse;

verus! {

/// The lifecycle state of one plugin reference. A reference only moves
/// forward (Discovered, Connected, Booted) or to Terminated; Terminated is
/// absorbing.
#[derive(Clone, Copy, PartialEq, Eq, Debug, Structural)]
pub enum PluginState {
    Discovered,
    Connected,
    Booted,
    Terminated,
}

/// The registry's record of one plugin instance. `ref_id` is assigned at
/// registration and equals the entry's position in the registry, which makes
/// every id unique. `boot_response` holds the metadata reported by the
/// plugin once it has booted.
pub struct PluginRef {
    pub ref_id: usize,
    pub dir: String,
    pub state: PluginState,
    pub boot_response: Option<BootResponse>,
}

/// What `boot` reports about one boot-response event. Only `Booted` mutates
/// the registry; the other outcomes are no-ops by design, never errors.
#[derive(Clone, Copy, PartialEq, Eq, Debug, Structural)]
pub enum BootOutcome {
    Booted,
    AlreadyBooted,
    Terminated,
    UnknownRef,
}

/// Every entry's id equals its position, so ids are unique and lookup by id
/// is lookup by position.
pub open spec fn registry_wf(regs: Seq<PluginRef>) -> bool {
    forall|i: int| 0 <= i < regs.len() ==> (#[trigger] regs[i]).ref_id == i
}

/// A state from which the boot transition is allowed: the at-most-one boot
/// per reference rule, with Terminated absorbing.
pub open spec fn bootable(s: PluginState) -> bool {
    s is Discovered || s is Connected
}

/// What one boot-response does to the registry: an in-range id in a bootable
/// state moves to Booted and records the metadata; anything else leaves the
/// registry exactly as it was.
pub open spec fn boot_step(regs: Seq<PluginRef>, id: usize, resp: BootResponse) -> Seq<PluginRef> {
    if id < regs.len() && bootable(regs[id as int].state) {
        regs.update(
            id as int,
            PluginRef {
                ref_id: regs[id as int].ref_id,
                dir: regs[id as int].dir,
                state: PluginState::Booted,
                boot_response: Some(resp),
            },
        )
    } else {
        regs
    }
}

/// What a connection does: Discovered moves to Connected; every other state
/// is left unchanged.
pub open spec fn connect_step(regs: Seq<PluginRef>, id: usize) -> Seq<PluginRef> {
    if id < regs.len() && regs[id as int].state is Discovered {
        regs.update(
            id as int,
            PluginRef {
                ref_id: regs[id as int].ref_id,
                dir: regs[id as int].dir,
                state: PluginState::Connected,
                boot_response: regs[id as int].boot_response,
            },
        )
    } else {
        regs
    }
}

/// Termination of one entry: the state becomes Terminated, the recorded
/// metadata is kept.
pub open spec fn terminate_one(r: PluginRef) -> PluginRef {
    PluginRef {
        ref_id: r.ref_id,
        dir: r.dir,
        state: PluginState::Terminated,
        boot_response: r.boot_response,
    }
}

/// Shutdown: every entry is terminated, nothing else changes.
pub open spec fn terminate_all_step(regs: Seq<PluginRef>) -> Seq<PluginRef> {
    regs.map(|i: int, r: PluginRef| terminate_one(r))
}

/// A state's position in the forward order Discovered, Connected, Booted,
/// with Terminated last as the terminal state.
pub open spec fn state_rank(s: PluginState) -> int {
    match s {
        PluginState::Discovered => 0,
        PluginState::Connected => 1,
        PluginState::Booted => 2,
        PluginState::Terminated => 3,
    }
}

/// The registry owns all plugin references.
pub struct PluginRegistry {
    refs: Vec<PluginRef>,
}

impl View for PluginRegistry {
    type V = Seq<PluginRef>;

    closed spec fn view(&self) -> Seq<PluginRef> {
        self.refs@
    }
}

impl PluginRegistry {
    /// An empty registry.
    pub fn new() -> (r: Self)
        ensures
            r@ == Seq::<PluginRef>::empty(),
            registry_wf(r@),
    {
        PluginRegistry { refs: Vec::new() }
    }

    /// Registers one plugin directory; the entry starts in Discovered with
    /// no recorded metadata, under a fresh id.
    pub fn register(&mut self, dir: String) -> (id: usize)
        requires
            registry_wf(old(self)@),
        ensures
            registry_wf(final(self)@),
            id == old(self)@.len(),
            final(self)@ == old(self)@.push(
                PluginRef {
                    ref_id: id,
                    dir: dir,
                    state: PluginState::Discovered,
                    boot_response: None,
                },
            ),
    {
        let id = self.refs.len();
        self.refs.push(
            PluginRef {
                ref_id: id,
                dir,
                state: PluginState::Discovered,
                boot_response: None,
            },
        );
        id
    }

    /// Seeds a registry from the discovered plugin directories: exactly one
    /// entry per directory, in order, each Discovered under a unique id.
    pub fn from_dirs(dirs: Vec<String>) -> (r: Self)
        ensures
            registry_wf(r@),
            r@.len() == dirs@.len(),
            forall|i: int|
                0 <= i < dirs@.len() ==> #[trigger] r@[i] == (PluginRef {
                    ref_id: i as usize,
                    dir: dirs@[i],
                    state: PluginState::Discovered,
                    boot_response: None,
                }),
            forall|i: int, j: int|
                0 <= i < r@.len() && 0 <= j < r@.len() && i != j ==> #[trigger] r@[i].ref_id
                    != #[trigger] r@[j].ref_id,
    {
        let mut reg = PluginRegistry::new();
        let mut i: usize = 0;
        while i < dirs.len()
            invariant
                registry_wf(reg@),
                i <= dirs@.len(),
                reg@.len() == i,
                forall|j: int|
                    0 <= j < i ==> #[trigger] reg@[j] == (PluginRef {
                        ref_id: j as usize,
                        dir: dirs@[j],
                        state: PluginState::Discovered,
                        boot_response: None,
                    }),
            decreases dirs@.len() - i,
        {
            let dir = dirs[i].clone();
            reg.register(dir);
            i += 1;
        }
        reg
    }

    /// The number of registered plugin references.
    pub fn len(&self) -> (n: usize)
        ensures
            n == self@.len(),
    {
        self.refs.len()
    }

    /// The state of the referenced plugin, or None for an unknown id.
    pub fn state_of(&self, id: usize) -> (s: Option<PluginState>)
        ensures
            id < self@.len() ==> s == Some(self@[id as int].state),
            id >= self@.len() ==> s is None,
    {
        if id < self.refs.len() {
            Some(self.refs[id].state)
        } else {
            None
        }
    }

    /// The directory the referenced plugin was discovered in, or None for
    /// an unknown id.
    pub fn dir_of(&self, id: usize) -> (r: Option<String>)
        ensures
            id < self@.len() ==> r == Some(self@[id as int].dir),
            id >= self@.len() ==> r is None,
    {
        if id < self.refs.len() {
            Some(self.refs[id].dir.clone())
        } else {
            None
        }
    }

    /// The metadata recorded for the referenced plugin, or None if the id is
    /// unknown or the plugin has not booted.
    pub fn boot_response_of(&self, id: usize) -> (r: Option<BootResponse>)
        ensures
            id < self@.len() ==> r == self@[id as int].boot_response,
            id >= self@.len() ==> r is None,
    {
        if id < self.refs.len() {
            match &self.refs[id].boot_response {
                Some(resp) => Some(resp.clone()),
                None => None,
            }
        } else {
            None
        }
    }

    /// Applies one boot-response: a known reference that has not yet booted
    /// (and is not terminated) becomes Booted with the reported metadata;
    /// every other id leaves the registry unchanged. The outcome says, for
    /// every input, which of the four cases held.
    pub fn boot(&mut self, id: usize, resp: &BootResponse) -> (outcome: BootOutcome)
        requires
            registry_wf(old(self)@),
        ensures
            registry_wf(final(self)@),
            final(self)@ == boot_step(old(self)@, id, *resp),
            outcome is Booted <==> (id < old(self)@.len() && bootable(
                old(self)@[id as int].state,
            )),
            outcome is AlreadyBooted <==> (id < old(self)@.len() && old(
                self,
            )@[id as int].state is Booted),
            outcome is Terminated <==> (id < old(self)@.len() && old(
                self,
            )@[id as int].state is Terminated),
            outcome is UnknownRef <==> id >= old(self)@.len(),
    {
        if id >= self.refs.len() {
            return BootOutcome::UnknownRef;
        }
        match self.refs[id].state {
            PluginState::Booted => BootOutcome::AlreadyBooted,
            PluginState::Terminated => BootOutcome::Terminated,
            _ => {
                let entry = self.refs.remove(id);
                let updated = PluginRef {
                    ref_id: entry.ref_id,
                    dir: entry.dir,
                    state: PluginState::Booted,
                    boot_response: Some(resp.clone()),
                };
                self.refs.insert(id, updated);
                proof {
                    assert(self.refs@ =~= boot_step(old(self)@, id, *resp));
                }
                BootOutcome::Booted
            },
        }
    }

    /// Marks a Discovered reference Connected; returns whether the
    /// transition happened. Every other state, and an unknown id, is a
    /// no-op.
    pub fn connect(&mut self, id: usize) -> (connected: bool)
        requires
            registry_wf(old(self)@),
        ensures
            registry_wf(final(self)@),
            final(self)@ == connect_step(old(self)@, id),
            connected <==> (id < old(self)@.len() && old(self)@[id as int].state is Discovered),
    {
        if id >= self.refs.len() {
            return false;
        }
        match self.refs[id].state {
            PluginState::Discovered => {
                let entry = self.refs.remove(id);
                let updated = PluginRef {
                    ref_id: entry.ref_id,
                    dir: entry.dir,
                    state: PluginState::Connected,
                    boot_response: entry.boot_response,
                };
                self.refs.insert(id, updated);
                proof {
                    assert(self.refs@ =~= connect_step(old(self)@, id));
                }
                true
            },
            _ => false,
        }
    }

    /// Lifecycle monotonicity: no transition — connect, boot, or
    /// termination — ever moves a reference backwards in the order
    /// Discovered, Connected, Booted, Terminated, and a Terminated
    /// reference never changes again in any way.
    pub proof fn lemma_lifecycle_monotone(
        regs: Seq<PluginRef>,
        id: usize,
        resp: BootResponse,
        j: int,
    )
        requires
            0 <= j < regs.len(),
        ensures
            state_rank(boot_step(regs, id, resp)[j].state) >= state_rank(regs[j].state),
            state_rank(connect_step(regs, id)[j].state) >= state_rank(regs[j].state),
            state_rank(terminate_all_step(regs)[j].state) >= state_rank(regs[j].state),
            regs[j].state is Terminated ==> boot_step(regs, id, resp)[j] == regs[j]
                && connect_step(regs, id)[j] == regs[j] && terminate_all_step(regs)[j] == regs[j],
    {
    }

    /// Boot idempotence: a second boot-response for the same reference is a
    /// no-op, whatever metadata it carries — exactly one Booted transition
    /// happens, and the first response's metadata is what stays recorded.
    pub proof fn lemma_boot_idempotent(
        regs: Seq<PluginRef>,
        id: usize,
        first: BootResponse,
        second: BootResponse,
    )
        ensures
            boot_step(boot_step(regs, id, first), id, second) == boot_step(regs, id, first),
            id < regs.len() && bootable(regs[id as int].state) ==> boot_step(regs, id, first)[id as int]
                == (PluginRef {
                ref_id: regs[id as int].ref_id,
                dir: regs[id as int].dir,
                state: PluginState::Booted,
                boot_response: Some(first),
            }),
    {
        assert(boot_step(boot_step(regs, id, first), id, second) =~= boot_step(regs, id, first));
    }

    /// Unknown reference safety: a boot-response whose id was never
    /// registered leaves the registry untouched.
    pub proof fn lemma_boot_unknown_ref(regs: Seq<PluginRef>, id: usize, resp: BootResponse)
        requires
            id >= regs.len(),
        ensures
            boot_step(regs, id, resp) == regs,
    {
    }

    /// Shutdown ordering: however a boot-response races a shutdown, the
    /// registry stays whole. If the boot lands first, shutdown finds the
    /// entry Booted and leaves its recorded metadata in place under
    /// Terminated; if shutdown lands first, the boot is a clean no-op. In
    /// both orders every entry ends Terminated with its metadata either
    /// fully recorded or exactly as it was — never half-written.
    pub proof fn lemma_shutdown_boot_race(regs: Seq<PluginRef>, id: usize, resp: BootResponse)
        ensures
            boot_step(terminate_all_step(regs), id, resp) == terminate_all_step(regs),
            forall|j: int|
                0 <= j < regs.len() ==> (#[trigger] terminate_all_step(
                    boot_step(regs, id, resp),
                )[j]).state is Terminated,
            id < regs.len() && bootable(regs[id as int].state) ==> terminate_all_step(
                boot_step(regs, id, resp),
            )[id as int].boot_response == Some(resp),
            forall|j: int|
                0 <= j < regs.len() && (j != id || !bootable(regs[j].state)) ==> (
                #[trigger] terminate_all_step(boot_step(regs, id, resp))[j]).boot_response
                    == regs[j].boot_response,
    {
        assert(boot_step(terminate_all_step(regs), id, resp) =~= terminate_all_step(regs));
    }

    /// Terminates every reference; recorded metadata is kept.
    pub fn terminate_all(&mut self)
        requires
            registry_wf(old(self)@),
        ensures
            registry_wf(final(self)@),
            final(self)@ == terminate_all_step(old(self)@),
    {
        let mut i: usize = 0;
        while i < self.refs.len()
            invariant
                registry_wf(self@),
                i <= self@.len(),
                self@.len() == old(self)@.len(),
                forall|j: int| 0 <= j < i ==> self@[j] == terminate_one(#[trigger] old(self)@[j]),
                forall|j: int| i <= j < self@.len() ==> self@[j] == #[trigger] old(self)@[j],
            decreases self@.len() - i,
        {
            let entry = self.refs.remove(i);
            let updated = PluginRef {
                ref_id: entry.ref_id,
                dir: entry.dir,
                state: PluginState::Terminated,
                boot_response: entry.boot_response,
            };
            self.refs.insert(i, updated);
            i += 1;
        }
        proof {
            assert(self@ =~= terminate_all_step(old(self)@));
        }
    }
}

} // verus!
