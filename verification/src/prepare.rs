//! Bind-group preparation.
//!
//! The compute pipeline's resource binding can only be assembled once
//! the storage-capable map handle is published and the low-level views
//! behind it exist. Rather than blocking, preparation is polled once per
//! frame: a cycle on which a dependency is missing simply defers to the
//! next frame, and the first successful assembly publishes the bind
//! group permanently. The machine is idempotent — once published, every
//! later cycle is a no-op — so polling it forever is safe and leaks
//! nothing.

use vstd::prelude::*;

verus! {

/// The assembled compute bind group, named by the identifier of the
/// underlying resource set.
#[derive(Clone, Copy, PartialEq, Eq, Structural, Debug)]
pub struct KernelBindGroup(pub u64);

/// What one preparation cycle found.
#[derive(Clone, Copy, PartialEq, Eq, Structural, Debug)]
pub enum PrepareEvent {
    /// The storage-capable map handle is not yet published.
    HandleMissing,
    /// Assembly was attempted but a low-level resource was not ready.
    AssemblyFailed,
    /// Assembly succeeded and produced this resource set.
    Assembled(u64),
}

/// The state of the preparation machine: the bind group, once published.
#[derive(Clone, Copy, PartialEq, Eq, Structural, Debug)]
pub struct PrepareState {
    pub bind_group: Option<KernelBindGroup>,
}

impl PrepareState {
    pub open spec fn spec_init() -> PrepareState {
        PrepareState { bind_group: None }
    }

    /// Whether the bind group has been published.
    pub open spec fn published(self) -> bool {
        self.bind_group is Some
    }

    /// The state after one preparation cycle: publication is permanent,
    /// and only a successful assembly publishes.
    pub open spec fn spec_prepared(self, event: PrepareEvent) -> PrepareState {
        if self.bind_group is Some {
            self
        } else {
            match event {
                PrepareEvent::Assembled(id) => PrepareState {
                    bind_group: Some(KernelBindGroup(id)),
                },
                _ => self,
            }
        }
    }

    pub fn new() -> (s: PrepareState)
        ensures
            s == PrepareState::spec_init(),
    {
        PrepareState { bind_group: None }
    }

    /// Whether this cycle needs to attempt assembly at all: only while
    /// nothing is published. The caller skips the (costly) assembly
    /// attempt otherwise.
    pub fn needs_prepare(&self) -> (r: bool)
        ensures
            r == !self.published(),
    {
        self.bind_group.is_none()
    }

    /// Run one preparation cycle with what this frame's assembly attempt
    /// found. Safe to call every frame indefinitely: a published bind
    /// group is never replaced, and a failed cycle changes nothing.
    pub fn prepare_compute(&mut self, event: PrepareEvent)
        ensures
            *final(self) == old(self).spec_prepared(event),
            old(self).published() ==> *final(self) == *old(self),
            final(self).published() <==> old(self).published() || event matches PrepareEvent::Assembled(
                _,
            ),
    {
        if self.bind_group.is_none() {
            match event {
                PrepareEvent::Assembled(id) => {
                    self.bind_group = Some(KernelBindGroup(id));
                },
                _ => {},
            }
        }
    }
}

/// The preparation machine run over a whole sequence of cycles.
pub open spec fn spec_prepare_run(s: PrepareState, events: Seq<PrepareEvent>) -> PrepareState
    decreases events.len(),
{
    if events.len() == 0 {
        s
    } else {
        spec_prepare_run(s.spec_prepared(events[0]), events.drop_first())
    }
}

/// However long it is polled, the machine never errors and never
/// publishes while its dependencies are missing: a run in which no cycle
/// assembles leaves the state exactly as it was.
pub proof fn lemma_prepare_waits(s: PrepareState, events: Seq<PrepareEvent>)
    requires
        forall|i: int| 0 <= i < events.len() ==> !(#[trigger] events[i] matches PrepareEvent::Assembled(_)),
    ensures
        spec_prepare_run(s, events) == s,
    decreases events.len(),
{
    if events.len() > 0 {
        assert(s.spec_prepared(events[0]) == s);
        assert(forall|i: int|
            0 <= i < events.drop_first().len() ==> !(#[trigger] events.drop_first()[i] matches PrepareEvent::Assembled(_)));
        lemma_prepare_waits(s, events.drop_first());
    }
}

/// Once published, the machine is inert: whatever the following cycles
/// find, the state — and with it the one published bind group — never
/// changes again. At most one bind group is ever published.
pub proof fn lemma_prepare_publishes_once(s: PrepareState, events: Seq<PrepareEvent>)
    requires
        s.published(),
    ensures
        spec_prepare_run(s, events) == s,
    decreases events.len(),
{
    if events.len() > 0 {
        assert(s.spec_prepared(events[0]) == s);
        lemma_prepare_publishes_once(s, events.drop_first());
    }
}

} // verus!
