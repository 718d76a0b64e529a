//! A verified model of a minimal cross-unit invocation pattern: a `Source`
//! unit holds a boolean and a typed remote reference to a `Destination`
//! unit; invoking `destination_flip` on the source dispatches a mutating
//! call through the execution host into the referenced destination.
//!
//! The host itself (address assignment, message routing, the per-invocation
//! call context) is modelled explicitly, so that the dispatch mechanism --
//! who is calling, whether the caller is the transaction origin, what
//! happens when a reference is dead or incompatible -- is stated and proved
//! rather than left ambient.

pub mod context;
pub mod destination;
pub mod host;
pub mod source;

pub use context::CallContext;
pub use context::Caller;
pub use context::ContextSnapshot;
pub use context::UnitAddress;
pub use destination::Destination;
pub use destination::DestinationRef;
pub use host::DeployedUnit;
pub use host::DispatchFailure;
pub use host::Host;
pub use source::ForwardReport;
pub use source::Source;
