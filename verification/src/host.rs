//! The execution host: the registry of deployed units and the dispatch of
//! messages between them.
//!
//! The host assigns every deployed instance a fresh address, persists each
//! instance's storage under that address, and resolves outbound calls at
//! call time: a dispatch to an address either reaches a live unit of the
//! expected kind and runs its operation under a nested call context, or
//! fails without touching any unit's state. The whole effect of one
//! dispatch is captured by the spec functions `dispatch_outcome` and
//! `dispatched`, which every dispatching operation's contract refers to.

use vstd::prelude::*;

use crate::context::CallContext;
use crate::context::Caller;
use crate::context::ContextSnapshot;
use crate::context::UnitAddress;
use crate::context::snapshot_of;
use crate::destination::Destination;

verus! {

/// One deployed unit instance, as the host's registry holds it.
#[derive(Clone, Copy, Debug, PartialEq, Eq, Structural)]
pub enum DeployedUnit {
    /// A destination unit: implements the destination operation set.
    Destination(Destination),
    /// A unit of some other kind: deployed and addressable, but not
    /// implementing the destination operation set, so a destination-typed
    /// dispatch to it fails at call time.
    Foreign,
}

/// Why an outbound dispatch failed. Every failure propagates unchanged to
/// the dispatching caller; no unit code recovers from it locally.
#[derive(Clone, Copy, Debug, PartialEq, Eq, Structural)]
pub enum DispatchFailure {
    /// No unit is deployed at the target address.
    UnknownUnit,
    /// A unit is deployed at the target address, but its operation set
    /// does not include the requested operation.
    IncompatibleUnit,
}

/// The execution host. Unit instances live in its registry; the address
/// of an instance is the position the host assigned to it at deployment,
/// so addresses are unique and immutable by construction.
pub struct Host {
    /// The deployed instances, indexed by the numeric part of their
    /// addresses in order of deployment.
    pub units: Vec<DeployedUnit>,
}

/// How a destination-typed dispatch to `target` resolves against the
/// registry `units`: success exactly when a unit is deployed there and it
/// is a destination, and otherwise the failure that names what went wrong.
pub open spec fn dispatch_outcome(units: Seq<DeployedUnit>, target: UnitAddress) -> Result<
    (),
    DispatchFailure,
> {
    if target.id >= units.len() {
        Err(DispatchFailure::UnknownUnit)
    } else if !(units[target.id as int] is Destination) {
        Err(DispatchFailure::IncompatibleUnit)
    } else {
        Ok(())
    }
}

/// The registry after a destination-typed `flip` dispatch to `target`:
/// on success the target destination is flipped and every other unit is
/// untouched; on failure nothing changes at all (whole-chain atomicity).
pub open spec fn dispatched(units: Seq<DeployedUnit>, target: UnitAddress) -> Seq<DeployedUnit> {
    if dispatch_outcome(units, target) is Ok {
        units.update(target.id as int, DeployedUnit::Destination((units[target.id as int]->0).flipped()))
    } else {
        units
    }
}

impl Host {
    /// Number of units deployed so far.
    pub open spec fn unit_count(self) -> nat {
        self.units@.len()
    }

    /// Whether some unit is deployed at address `a`.
    pub open spec fn has_unit(self, a: UnitAddress) -> bool {
        a.id < self.units@.len()
    }

    /// The unit deployed at address `a`.
    pub open spec fn unit_at(self, a: UnitAddress) -> DeployedUnit
        recommends
            self.has_unit(a),
    {
        self.units@[a.id as int]
    }

    /// Whether a live destination unit answers at address `a`.
    pub open spec fn is_live_destination(self, a: UnitAddress) -> bool {
        self.has_unit(a) && self.unit_at(a) is Destination
    }

    /// The stored boolean of the destination deployed at address `a`.
    pub open spec fn destination_value(self, a: UnitAddress) -> bool
        recommends
            self.is_live_destination(a),
    {
        (self.unit_at(a)->0).read()
    }

    /// A host with nothing deployed yet.
    pub fn new() -> (h: Host)
        ensures
            h.unit_count() == 0,
    {
        Host { units: Vec::new() }
    }

    /// Host-level instantiation of a destination unit: runs the
    /// destination constructor with the given initial value and persists
    /// the new instance under a fresh address, which is returned.
    pub fn deploy_destination(&mut self, init_value: bool) -> (a: UnitAddress)
        ensures
            a.id == old(self).unit_count(),
            final(self).units@ == old(self).units@.push(
                DeployedUnit::Destination(Destination::constructed(init_value)),
            ),
    {
        let a = UnitAddress { id: self.units.len() as u64 };
        let d = Destination::new(init_value);
        self.units.push(DeployedUnit::Destination(d));
        a
    }

    /// Host-level instantiation of a unit that does not implement the
    /// destination operation set. A destination-typed reference to its
    /// address is well-typed but invalid, which only a dispatch reveals.
    pub fn deploy_foreign(&mut self) -> (a: UnitAddress)
        ensures
            a.id == old(self).unit_count(),
            final(self).units@ == old(self).units@.push(DeployedUnit::Foreign),
    {
        let a = UnitAddress { id: self.units.len() as u64 };
        self.units.push(DeployedUnit::Foreign);
        a
    }

    /// Synchronous outbound dispatch of the destination `flip` operation,
    /// issued by the unit at `calling_unit`. The host resolves `target`
    /// at call time, sets up the nested call context (the calling unit
    /// becomes the caller, the origin flag drops), runs the callee's
    /// `flip`, and hands back the callee's diagnostic snapshot -- or the
    /// failure, leaving every unit's state exactly as it was.
    pub fn dispatch_destination_flip(&mut self, calling_unit: UnitAddress, target: UnitAddress) -> (r:
        Result<ContextSnapshot, DispatchFailure>)
        ensures
            final(self).units@ == dispatched(old(self).units@, target),
            match r {
                Ok(s) => dispatch_outcome(old(self).units@, target) is Ok && s == snapshot_of(
                    CallContext::nested(calling_unit, target),
                ),
                Err(e) => dispatch_outcome(old(self).units@, target) == Err::<(), DispatchFailure>(e),
            },
    {
        if target.id >= self.units.len() as u64 {
            return Err(DispatchFailure::UnknownUnit);
        }
        let i = target.id as usize;
        let unit = self.units[i];
        match unit {
            DeployedUnit::Destination(d) => {
                let mut callee = d;
                let ctx = CallContext {
                    caller: Caller::Unit(calling_unit),
                    caller_is_origin: false,
                    self_address: target,
                };
                let snap = callee.flip(&ctx);
                self.units[i] = DeployedUnit::Destination(callee);
                Ok(snap)
            },
            DeployedUnit::Foreign => Err(DispatchFailure::IncompatibleUnit),
        }
    }

    /// Synchronous dispatch of the destination `get` operation: a pure
    /// read of the target destination's stored boolean, failing the same
    /// way a `flip` dispatch would on a dead or incompatible target.
    pub fn dispatch_destination_get(&self, target: UnitAddress) -> (r: Result<
        bool,
        DispatchFailure,
    >)
        ensures
            match r {
                Ok(v) => self.is_live_destination(target) && v == self.destination_value(target),
                Err(e) => dispatch_outcome(self.units@, target) == Err::<(), DispatchFailure>(e),
            },
    {
        if target.id >= self.units.len() as u64 {
            return Err(DispatchFailure::UnknownUnit);
        }
        let i = target.id as usize;
        match self.units[i] {
            DeployedUnit::Destination(d) => Ok(d.get()),
            DeployedUnit::Foreign => Err(DispatchFailure::IncompatibleUnit),
        }
    }
}

/// A dispatched flip to a live, compatible target succeeds, negates that
/// destination's stored boolean, and leaves every other deployed unit --
/// and the number of deployed units -- untouched.
pub proof fn lemma_dispatch_flips_target(units: Seq<DeployedUnit>, target: UnitAddress)
    requires
        target.id < units.len(),
        units[target.id as int] is Destination,
    ensures
        dispatch_outcome(units, target) is Ok,
        dispatched(units, target).len() == units.len(),
        dispatched(units, target)[target.id as int] is Destination,
        (dispatched(units, target)[target.id as int]->0).read() == !(units[target.id as int]->0).read(),
        forall|i: int| 0 <= i < units.len() && i != target.id ==> dispatched(units, target)[i] == units[i],
{
}

/// A dispatch to a dead address or to an incompatible unit fails with the
/// matching failure and changes no unit's state at all: the registry after
/// the attempt is the registry before it.
pub proof fn lemma_dispatch_failure_is_atomic(units: Seq<DeployedUnit>, target: UnitAddress)
    requires
        target.id >= units.len() || !(units[target.id as int] is Destination),
    ensures
        dispatch_outcome(units, target) is Err,
        target.id >= units.len() ==> dispatch_outcome(units, target) == Err::<(),
            DispatchFailure,
        >(DispatchFailure::UnknownUnit),
        target.id < units.len() ==> dispatch_outcome(units, target) == Err::<(),
            DispatchFailure,
        >(DispatchFailure::IncompatibleUnit),
        dispatched(units, target) == units,
{
}

/// Dispatching a flip to the same live target twice restores the registry
/// exactly: the involution of the destination payload lifts through the
/// dispatch mechanism to the whole host state.
pub proof fn lemma_dispatch_involution(units: Seq<DeployedUnit>, target: UnitAddress)
    requires
        target.id < units.len(),
        units[target.id as int] is Destination,
    ensures
        dispatched(dispatched(units, target), target) =~= units,
{
}

} // verus!
