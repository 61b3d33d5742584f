//! Behaviour of the per-request binding protocol.

use axum_sea_orm_tx::require_binding;
use axum_sea_orm_tx::AccessStep;
use axum_sea_orm_tx::Error;
use axum_sea_orm_tx::Lazy;
use axum_sea_orm_tx::LazyPhase;
use axum_sea_orm_tx::TxSlot;

/// Drives one accessor call the way the adapter does: begins a "transaction"
/// (here just a number) when asked to, and counts how often that happens.
fn accessor(lazy: &mut Lazy<u64>, next: u64, begins: &mut u32) -> Result<u64, Error> {
    match lazy.access()? {
        AccessStep::Acquired(lease) => {
            let value = *lease.get();
            lazy.restore(lease);
            Ok(value)
        }
        AccessStep::NeedsBegin => {
            *begins += 1;
            let lease = lazy.start(next);
            let value = *lease.get();
            lazy.restore(lease);
            Ok(value)
        }
    }
}

#[test]
fn first_access_needs_begin() {
    let (_anchor, mut lazy) = TxSlot::<u64>::bind();
    assert!(matches!(lazy.current_phase(), LazyPhase::Unstarted));
    assert!(matches!(lazy.access(), Ok(AccessStep::NeedsBegin)));
    // asking does not itself start anything
    assert!(matches!(lazy.current_phase(), LazyPhase::Unstarted));
}

#[test]
fn phases_follow_the_protocol() {
    let (anchor, mut lazy) = TxSlot::<u64>::bind();
    assert!(anchor.is_leased());
    let lease = lazy.start(1);
    assert!(matches!(lazy.current_phase(), LazyPhase::Loaned));
    lazy.restore(lease);
    assert!(matches!(lazy.current_phase(), LazyPhase::Available));
    let lease = match lazy.access() {
        Ok(AccessStep::Acquired(lease)) => lease,
        _ => panic!("an available transaction must be leased out"),
    };
    let _ = lazy.steal(lease);
    assert!(matches!(lazy.current_phase(), LazyPhase::Spent));
}

#[test]
fn many_accessor_calls_begin_once() {
    let (_anchor, mut lazy) = TxSlot::<u64>::bind();
    let mut begins: u32 = 0;
    for _ in 0..5 {
        let value = accessor(&mut lazy, 42, &mut begins).unwrap();
        assert_eq!(value, 42);
    }
    assert_eq!(begins, 1);
}

#[test]
fn no_accessor_call_no_begin() {
    let (mut anchor, lazy) = TxSlot::<u64>::bind();
    anchor.reclaim(lazy);
    assert_eq!(anchor.into_transaction(), None);
}

#[test]
fn overlapping_access_fails_fast() {
    let (_anchor, mut lazy) = TxSlot::<u64>::bind();
    assert!(matches!(lazy.access(), Ok(AccessStep::NeedsBegin)));
    let outstanding = lazy.start(1);
    // a second accessor, while the first still holds the lease, is refused
    // at once rather than made to wait
    match lazy.access() {
        Err(Error::OverlappingExtractors) => {}
        _ => panic!("expected the overlapping access to be refused"),
    }
    lazy.restore(outstanding);
    assert!(matches!(lazy.access(), Ok(AccessStep::Acquired(_))));
}

#[test]
fn explicit_commit_is_final() {
    let (mut anchor, mut lazy) = TxSlot::<u64>::bind();
    assert!(matches!(lazy.access(), Ok(AccessStep::NeedsBegin)));
    let lease = lazy.start(8);
    let taken = lazy.steal(lease);
    assert_eq!(taken, 8);
    // after the explicit commit stole the transaction, every further
    // accessor call fails with the overlap error, not silently
    match lazy.access() {
        Err(Error::OverlappingExtractors) => {}
        _ => panic!("expected access after an explicit commit to be refused"),
    }
    anchor.reclaim(lazy);
    // and nothing is left for the outcome-driven finalize to commit
    assert_eq!(anchor.into_transaction(), None);
}

#[test]
fn missing_binding_is_its_own_error() {
    match require_binding(false) {
        Err(Error::MissingExtension) => {}
        _ => panic!("a request without the middleware must fail with MissingExtension"),
    }
    assert!(require_binding(true).is_ok());
}

#[test]
fn reclaimed_transaction_is_drained() {
    let (mut anchor, mut lazy) = TxSlot::<u64>::bind();
    assert!(matches!(lazy.access(), Ok(AccessStep::NeedsBegin)));
    let lease = lazy.start(11);
    lazy.restore(lease);
    anchor.reclaim(lazy);
    assert_eq!(anchor.into_transaction(), Some(11));
}
