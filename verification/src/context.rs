//! Addresses and per-invocation call metadata.
//!
//! A `UnitAddress` identifies one deployed unit instance; the host assigns
//! it at deployment time and it never changes. A `CallContext` is the
//! ephemeral metadata the host supplies to exactly one dispatched
//! invocation: who the immediate caller is, whether that caller is the
//! external account that started the whole transaction, and the address of
//! the instance currently executing.

use vstd::prelude::*;

verus! {

/// Host-assigned identifier of one deployed unit instance, unique per
/// instance and immutable once assigned.
#[derive(Clone, Copy, Debug, PartialEq, Eq, Structural)]
pub struct UnitAddress {
    pub id: u64,
}

/// The immediate invoker of the currently executing operation: either
/// another deployed unit, or the external account that started the
/// transaction.
#[derive(Clone, Copy, Debug, PartialEq, Eq, Structural)]
pub enum Caller {
    /// The invoker is a deployed unit calling across unit boundaries.
    Unit(UnitAddress),
    /// The invoker is an external account, identified by its account id.
    External(u64),
}

/// Ephemeral metadata of one dispatched invocation. Never persisted; the
/// host rebuilds it on every dispatch.
#[derive(Clone, Copy, Debug, PartialEq, Eq, Structural)]
pub struct CallContext {
    /// Identity of the immediate invoker.
    pub caller: Caller,
    /// True iff the immediate invoker is the external account that
    /// originated the whole transaction, i.e. this is not a nested call.
    pub caller_is_origin: bool,
    /// Address of the unit instance this invocation is running in.
    pub self_address: UnitAddress,
}

impl CallContext {
    /// The context invariant the host maintains: the origin flag is set
    /// exactly when the immediate caller is an external account rather
    /// than another unit.
    pub open spec fn well_formed(self) -> bool {
        self.caller_is_origin <==> self.caller is External
    }

    /// The context the host sets up for a nested call: the calling unit
    /// becomes the caller, the origin flag drops, and the callee's own
    /// address becomes the self address.
    pub open spec fn nested(calling_unit: UnitAddress, callee: UnitAddress) -> CallContext {
        CallContext {
            caller: Caller::Unit(calling_unit),
            caller_is_origin: false,
            self_address: callee,
        }
    }
}

/// A nested context always satisfies the context invariant.
pub proof fn lemma_nested_context_well_formed(calling_unit: UnitAddress, callee: UnitAddress)
    ensures
        CallContext::nested(calling_unit, callee).well_formed(),
{
}

/// What an operation observes of its call context and emits as
/// diagnostic output. Side-channel only: it never feeds back into stored
/// state or return values.
#[derive(Clone, Copy, Debug, PartialEq, Eq, Structural)]
pub struct ContextSnapshot {
    /// The caller the operation saw.
    pub caller: Caller,
    /// The origin flag the operation saw.
    pub caller_is_origin: bool,
    /// The address of the instance the observation was made in.
    pub observed_at: UnitAddress,
}

/// The snapshot an operation running under context `ctx` observes.
pub open spec fn snapshot_of(ctx: CallContext) -> ContextSnapshot {
    ContextSnapshot {
        caller: ctx.caller,
        caller_is_origin: ctx.caller_is_origin,
        observed_at: ctx.self_address,
    }
}

/// Observe the current call context, as an operation does when it emits
/// its caller, origin flag and own address as diagnostics.
pub fn observe(ctx: &CallContext) -> (s: ContextSnapshot)
    ensures
        s == snapshot_of(*ctx),
{
    ContextSnapshot {
        caller: ctx.caller,
        caller_is_origin: ctx.caller_is_origin,
        observed_at: ctx.self_address,
    }
}

} // verus!
