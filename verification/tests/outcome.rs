//! Behaviour of the commit-or-discard decision, and model runs of whole
//! requests.

use axum_sea_orm_tx::is_success_status;
use axum_sea_orm_tx::plan_finalize;
use axum_sea_orm_tx::AccessStep;
use axum_sea_orm_tx::Error;
use axum_sea_orm_tx::FinalizePlan;
use axum_sea_orm_tx::TxSlot;

#[test]
fn success_is_the_2xx_range() {
    assert!(is_success_status(200));
    assert!(is_success_status(204));
    assert!(is_success_status(299));
    assert!(!is_success_status(199));
    assert!(!is_success_status(300));
    assert!(!is_success_status(404));
    assert!(!is_success_status(500));
}

/// Runs one whole request at the model level: `rows` are "inserted" through
/// as many accessor calls, each appending to the transaction's row list, and
/// the response status decides the plan.
fn run_request(rows: &[i64], status: u16) -> FinalizePlan<Vec<i64>> {
    let (mut anchor, mut lazy) = TxSlot::<Vec<i64>>::bind();
    for &row in rows {
        let mut lease = match lazy.access().unwrap() {
            AccessStep::Acquired(lease) => lease,
            AccessStep::NeedsBegin => lazy.start(Vec::new()),
        };
        lease.get_mut().push(row);
        lazy.restore(lease);
    }
    anchor.reclaim(lazy);
    plan_finalize(status, anchor)
}

#[test]
fn commit_on_success() {
    // two sequential accessor calls insert into one shared transaction, and
    // the success response commits both rows at once
    match run_request(&[1, 2], 200) {
        FinalizePlan::Commit(rows) => assert_eq!(rows, vec![1, 2]),
        _ => panic!("a success response with an acquired transaction must commit"),
    }
}

#[test]
fn rollback_on_non_success() {
    // the row was inserted, but the non-success response discards the
    // transaction uncommitted
    match run_request(&[1], 500) {
        FinalizePlan::Discard(Some(rows)) => assert_eq!(rows, vec![1]),
        _ => panic!("a non-success response must discard the transaction"),
    }
}

#[test]
fn noop_finalize_when_never_acquired() {
    match run_request(&[], 200) {
        FinalizePlan::Nothing => {}
        _ => panic!("a success response without an acquired transaction is a no-op"),
    }
}

#[test]
fn discard_carries_nothing_when_never_acquired() {
    match run_request(&[], 404) {
        FinalizePlan::Discard(None) => {}
        _ => panic!("a non-success response without a transaction discards nothing"),
    }
}

#[test]
fn nested_access_conflicts_mid_request() {
    // one accessor call is still holding the lease when a nested one runs:
    // the nested one gets the overlap error, the outer one goes on unharmed
    let (mut anchor, mut lazy) = TxSlot::<Vec<i64>>::bind();
    let mut lease = match lazy.access().unwrap() {
        AccessStep::NeedsBegin => lazy.start(Vec::new()),
        AccessStep::Acquired(lease) => lease,
    };
    lease.get_mut().push(1);
    match lazy.access() {
        Err(Error::OverlappingExtractors) => {}
        _ => panic!("the nested accessor must fail with the overlap error"),
    }
    lease.get_mut().push(2);
    lazy.restore(lease);
    anchor.reclaim(lazy);
    match plan_finalize(201, anchor) {
        FinalizePlan::Commit(rows) => assert_eq!(rows, vec![1, 2]),
        _ => panic!("the outer accessor's work must still commit"),
    }
}

#[test]
fn database_error_carries_the_cause() {
    let cause = sea_orm::DbErr::Custom("no connection".to_owned());
    let error = Error::Database { error: cause };
    match error {
        Error::Database { error: sea_orm::DbErr::Custom(text) } => {
            assert_eq!(text, "no connection");
        }
        _ => panic!("expected the database error variant"),
    }
}
