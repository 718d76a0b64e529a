//! The source unit: the origin of the cross-unit call.
//!
//! It owns a boolean of its own plus a typed remote reference to a
//! destination instance, set once at construction and immutable
//! thereafter. Its local operations (`flip`, `get`) touch only its own
//! storage; `destination_flip` is the pass-through transition that
//! dispatches the destination's `flip` through the host and propagates
//! any dispatch failure unchanged to its own caller.

use vstd::prelude::*;

use crate::context::CallContext;
use crate::context::ContextSnapshot;
use crate::context::UnitAddress;
use crate::context::observe;
use crate::context::snapshot_of;
use crate::destination::DestinationRef;
use crate::host::DispatchFailure;
use crate::host::Host;
use crate::host::dispatch_outcome;
use crate::host::dispatched;

verus! {

/// A source unit instance: one boolean of persistent storage plus the
/// remote reference it forwards to.
#[derive(Clone, Copy, Debug, PartialEq, Eq, Structural)]
pub struct Source {
    /// The stored boolean.
    pub value: bool,
    /// The referenced destination. Stored verbatim at construction and
    /// never mutated by any operation of this unit.
    pub destination: DestinationRef,
}

/// What `destination_flip` emits for observability when the dispatch
/// succeeds: the source's own view of its call context, the address it
/// forwarded to, and the snapshot the destination observed during the
/// nested call.
#[derive(Clone, Copy, Debug, PartialEq, Eq, Structural)]
pub struct ForwardReport {
    /// The call context as the source observed it, before forwarding.
    pub source_observed: ContextSnapshot,
    /// The address the source's stored reference forwarded to.
    pub target: UnitAddress,
    /// The call context as the destination observed it during the nested
    /// call: the source's address as caller, with the origin flag down.
    pub destination_observed: ContextSnapshot,
}

impl Source {
    /// Model of construction: own boolean initialised to the given value,
    /// the reference stored verbatim.
    pub open spec fn constructed(init_value: bool, destination: DestinationRef) -> Source {
        Source { value: init_value, destination: destination }
    }

    /// Model of the local `flip`'s effect: the own boolean is negated and
    /// the stored reference is untouched.
    pub open spec fn flipped(self) -> Source {
        Source { value: !self.value, destination: self.destination }
    }

    /// Model of `get`'s result: the own stored boolean.
    pub open spec fn read(self) -> bool {
        self.value
    }

    /// Constructor: initialises the own boolean to `init_value` and
    /// stores `destination` verbatim. The reference is not validated
    /// here; whether it addresses a live, compatible unit is discovered
    /// only when `destination_flip` first dispatches through it.
    pub fn new(init_value: bool, destination: DestinationRef) -> (s: Source)
        ensures
            s == Source::constructed(init_value, destination),
    {
        Source { value: init_value, destination: destination }
    }

    /// Flips the own stored boolean from `true` to `false` and vice
    /// versa. Purely local: it takes no host and no reference to any
    /// other unit, so no other unit's state can change.
    pub fn flip(&mut self)
        ensures
            *final(self) == old(self).flipped(),
    {
        self.value = !self.value;
    }

    /// Returns the current value of the own stored boolean. Pure read,
    /// no side effects, never fails.
    pub fn get(&self) -> (v: bool)
        ensures
            v == self.read(),
    {
        self.value
    }

    /// Forwards a `flip` to the referenced destination: observes and
    /// emits the own call context, then dispatches the destination's
    /// `flip` through the host using the stored reference.
    ///
    /// The own stored state never changes, whichever way the dispatch
    /// goes. On success the host holds the referenced destination with
    /// its boolean negated and every other unit untouched, and the report
    /// shows the destination observing this source as its caller, not as
    /// the transaction origin. On failure the failure propagates
    /// unchanged and the host is left exactly as it was: whole-chain
    /// atomicity, with no partial success observable to anyone.
    pub fn destination_flip(&mut self, host: &mut Host, ctx: &CallContext) -> (r: Result<
        ForwardReport,
        DispatchFailure,
    >)
        requires
            ctx.well_formed(),
        ensures
            *final(self) == *old(self),
            final(host).units@ == dispatched(old(host).units@, old(self).destination.address),
            match r {
                Ok(rep) => {
                    &&& dispatch_outcome(old(host).units@, old(self).destination.address) is Ok
                    &&& rep.source_observed == snapshot_of(*ctx)
                    &&& rep.target == old(self).destination.address
                    &&& rep.destination_observed == snapshot_of(
                        CallContext::nested(ctx.self_address, old(self).destination.address),
                    )
                },
                Err(e) => dispatch_outcome(old(host).units@, old(self).destination.address)
                    == Err::<(), DispatchFailure>(e),
            },
    {
        let source_observed = observe(ctx);
        let target = self.destination.address;
        match host.dispatch_destination_flip(ctx.self_address, target) {
            Ok(destination_observed) => Ok(ForwardReport { source_observed, target, destination_observed }),
            Err(e) => Err(e),
        }
    }
}

/// Reading a source straight after construction yields the value it was
/// constructed with; a local flip negates that value and keeps the stored
/// remote reference. The local flip takes no host and no other unit, so
/// the referenced destination's state is untouched by it.
pub proof fn lemma_source_local_operations(b1: bool, r: DestinationRef)
    ensures
        Source::constructed(b1, r).read() == b1,
        Source::constructed(b1, r).flipped().read() == !b1,
        Source::constructed(b1, r).flipped().destination == r,
        Source::constructed(b1, r).flipped().flipped() == Source::constructed(b1, r),
{
}

} // verus!
