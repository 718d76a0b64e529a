//! The destination unit: the leaf of the call chain.
//!
//! It owns a single boolean, exposes a mutating `flip` and a pure `get`,
//! and on `flip` observes the identity of whoever is calling it. The
//! boolean is a placeholder payload; the point is that its mutation is
//! reachable both directly and through a cross-unit dispatch.

use vstd::prelude::*;

use crate::context::CallContext;
use crate::context::ContextSnapshot;
use crate::context::UnitAddress;
use crate::context::observe;
use crate::context::snapshot_of;

verus! {

/// A destination unit instance: one boolean of persistent storage.
#[derive(Clone, Copy, Debug, PartialEq, Eq, Structural)]
pub struct Destination {
    /// The stored boolean.
    pub value: bool,
}

impl Destination {
    /// Model of construction: storage initialised to the given value.
    pub open spec fn constructed(init_value: bool) -> Destination {
        Destination { value: init_value }
    }

    /// Model of `flip`'s effect on stored state: the boolean is negated.
    pub open spec fn flipped(self) -> Destination {
        Destination { value: !self.value }
    }

    /// Model of `get`'s result: the stored boolean.
    pub open spec fn read(self) -> bool {
        self.value
    }

    /// Constructor: initialises the stored boolean to `init_value`.
    /// No failure modes.
    pub fn new(init_value: bool) -> (d: Destination)
        ensures
            d == Destination::constructed(init_value),
    {
        Destination { value: init_value }
    }

    /// Flips the stored boolean from `true` to `false` and vice versa.
    ///
    /// The invocation's call context (caller, origin flag, own address) is
    /// observed and handed back as a diagnostic snapshot; the snapshot is
    /// side-channel output only and never influences the stored state.
    pub fn flip(&mut self, ctx: &CallContext) -> (s: ContextSnapshot)
        requires
            ctx.well_formed(),
        ensures
            *final(self) == old(self).flipped(),
            s == snapshot_of(*ctx),
    {
        let s = observe(ctx);
        self.value = !self.value;
        s
    }

    /// Returns the current value of the stored boolean. Pure read, no
    /// side effects, never fails.
    pub fn get(&self) -> (v: bool)
        ensures
            v == self.read(),
    {
        self.value
    }
}

/// A typed remote reference to a destination unit: the address of the
/// instance to call, carrying in its type the operation set the referenced
/// unit is expected to implement.
///
/// Validity is a runtime property, not a construction-time guarantee: the
/// host only discovers at dispatch time whether a live, compatible unit
/// answers at this address, so an invalid reference surfaces as a dispatch
/// failure on first use, never at construction.
#[derive(Clone, Copy, Debug, PartialEq, Eq, Structural)]
pub struct DestinationRef {
    /// Address of the referenced destination instance.
    pub address: UnitAddress,
}

/// Reading a destination straight after construction yields exactly the
/// value it was constructed with.
pub proof fn lemma_construct_then_get(b: bool)
    ensures
        Destination::constructed(b).read() == b,
{
}

/// Flipping negates the stored boolean, and flipping twice restores it:
/// `flip` is an involution on the unit's state.
pub proof fn lemma_flip_involution(d: Destination)
    ensures
        d.flipped().read() == !d.read(),
        d.flipped().flipped() == d,
{
}

} // verus!
