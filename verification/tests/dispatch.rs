// The cross-unit dispatch: forwarding a flip through the host, the call
// context the callee observes, and atomic failure on invalid references.

use crossflip::CallContext;
use crossflip::Caller;
use crossflip::DestinationRef;
use crossflip::DispatchFailure;
use crossflip::Host;
use crossflip::Source;
use crossflip::UnitAddress;

fn external_ctx(account: u64, self_id: u64) -> CallContext {
    CallContext {
        caller: Caller::External(account),
        caller_is_origin: true,
        self_address: UnitAddress { id: self_id },
    }
}

#[test]
fn deploy_assigns_fresh_addresses() {
    let mut host = Host::new();
    let a = host.deploy_destination(false);
    let b = host.deploy_foreign();
    let c = host.deploy_destination(true);
    assert_ne!(a, b);
    assert_ne!(a, c);
    assert_ne!(b, c);
    assert_eq!(host.dispatch_destination_get(a), Ok(false));
    assert_eq!(host.dispatch_destination_get(c), Ok(true));
}

#[test]
fn destination_flip_forwards_to_live_destination() {
    for (b1, d0) in [(false, false), (false, true), (true, false), (true, true)] {
        let mut host = Host::new();
        let target = host.deploy_destination(d0);
        let source_address = UnitAddress { id: 1000 };
        let mut source = Source::new(b1, DestinationRef { address: target });

        let r = source.destination_flip(&mut host, &external_ctx(7, source_address.id));
        assert!(r.is_ok());

        // The source's own boolean is untouched; the destination's flipped.
        assert_eq!(source.get(), b1);
        assert_eq!(host.dispatch_destination_get(target), Ok(!d0));
    }
}

#[test]
fn forwarded_call_reports_both_contexts() {
    let mut host = Host::new();
    let target = host.deploy_destination(false);
    let source_address = UnitAddress { id: 77 };
    let mut source = Source::new(false, DestinationRef { address: target });

    let outer = external_ctx(5, source_address.id);
    let report = source.destination_flip(&mut host, &outer).unwrap();

    // The source observed the external caller as the transaction origin.
    assert_eq!(report.source_observed.caller, Caller::External(5));
    assert!(report.source_observed.caller_is_origin);
    assert_eq!(report.source_observed.observed_at, source_address);
    assert_eq!(report.target, target);
    // The destination observed the source unit as its caller, and that
    // caller is not the transaction origin.
    assert_eq!(report.destination_observed.caller, Caller::Unit(source_address));
    assert!(!report.destination_observed.caller_is_origin);
    assert_eq!(report.destination_observed.observed_at, target);
}

#[test]
fn forward_to_dead_address_fails_atomically() {
    let mut host = Host::new();
    let live = host.deploy_destination(true);
    let dead = UnitAddress { id: 12 };
    let mut source = Source::new(true, DestinationRef { address: dead });

    let r = source.destination_flip(&mut host, &external_ctx(2, 50));

    assert_eq!(r, Err(DispatchFailure::UnknownUnit));
    // Whole-chain atomicity: neither unit's persisted state changed.
    assert_eq!(source.get(), true);
    assert_eq!(host.dispatch_destination_get(live), Ok(true));
}

#[test]
fn forward_to_incompatible_unit_fails_atomically() {
    let mut host = Host::new();
    let live = host.deploy_destination(false);
    let foreign = host.deploy_foreign();
    let mut source = Source::new(false, DestinationRef { address: foreign });

    let r = source.destination_flip(&mut host, &external_ctx(2, 50));

    assert_eq!(r, Err(DispatchFailure::IncompatibleUnit));
    assert_eq!(source.get(), false);
    assert_eq!(host.dispatch_destination_get(live), Ok(false));
    assert_eq!(
        host.dispatch_destination_get(foreign),
        Err(DispatchFailure::IncompatibleUnit)
    );
}

#[test]
fn get_through_host_fails_on_dead_address() {
    let host = Host::new();
    assert_eq!(
        host.dispatch_destination_get(UnitAddress { id: 0 }),
        Err(DispatchFailure::UnknownUnit)
    );
}

#[test]
fn concrete_forwarding_scenario() {
    // Destination constructed with false; Source constructed with false
    // and a reference to that destination.
    let mut host = Host::new();
    let target = host.deploy_destination(false);
    let mut source = Source::new(false, DestinationRef { address: target });
    let ctx = external_ctx(1, 500);

    assert!(source.destination_flip(&mut host, &ctx).is_ok());
    assert_eq!(host.dispatch_destination_get(target), Ok(true));
    assert_eq!(source.get(), false);

    assert!(source.destination_flip(&mut host, &ctx).is_ok());
    assert_eq!(host.dispatch_destination_get(target), Ok(false));
    assert_eq!(source.get(), false);
}
