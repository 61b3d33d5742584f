//! The commit-or-discard decision.
//!
//! Once the downstream pipeline has produced its response, the response's
//! status code — and nothing else — decides the fate of whatever transaction
//! the request ended up with: a success status commits it, anything else
//! leaves it to be dropped uncommitted, which rolls it back.

use vstd::prelude::*;

use crate::tx::TxSlot;

verus! {

/// Whether a status code classifies the response as a success: the `2XX`
/// range and nothing else.
pub open spec fn spec_is_success(status: u16) -> bool {
    200 <= status < 300
}

/// Classifies a response status code as success or non-success.
pub fn is_success_status(status: u16) -> (b: bool)
    ensures
        b == spec_is_success(status),
{
    200 <= status && status < 300
}

/// What the middleware must do with the request's transaction once the
/// downstream response is known.
pub enum FinalizePlan<T> {
    /// The response was a success and a transaction was acquired: commit
    /// it, and it alone.
    Commit(T),
    /// The response was a success but no transaction was ever acquired:
    /// there is nothing to do, and the request finalizes as a no-op.
    Nothing,
    /// The response was not a success: whatever transaction is here is
    /// handed back only to be dropped uncommitted, which rolls it back.
    Discard(Option<T>),
}

/// The plan that a classification and a drained anchor call for.
pub open spec fn spec_plan<T>(success: bool, drained: Option<T>) -> FinalizePlan<T> {
    if success {
        match drained {
            Some(t) => FinalizePlan::Commit(t),
            None => FinalizePlan::Nothing,
        }
    } else {
        FinalizePlan::Discard(drained)
    }
}

/// Decides the fate of the request's transaction from the response status:
/// drains the request's anchor and pairs what it held with the
/// commit-or-discard decision.
pub fn plan_finalize<T>(status: u16, slot: TxSlot<T>) -> (p: FinalizePlan<T>)
    ensures
        p == spec_plan(spec_is_success(status), slot.spec_transaction()),
{
    let success = is_success_status(status);
    let drained = slot.into_transaction();
    if success {
        match drained {
            Some(t) => FinalizePlan::Commit(t),
            None => FinalizePlan::Nothing,
        }
    } else {
        FinalizePlan::Discard(drained)
    }
}

/// Commit on success: when the response classifies as a success and the
/// request acquired a transaction, the plan commits exactly that
/// transaction — and, since the plan owns it, nothing else can drop it
/// uncommitted.
pub proof fn lemma_commit_on_success<T>(status: u16, t: T)
    requires
        spec_is_success(status),
    ensures
        spec_plan(spec_is_success(status), Some(t)) == FinalizePlan::Commit(t),
{
}

/// Rollback on non-success: when the response does not classify as a
/// success, no plan ever commits; whatever transaction is there is handed
/// back only to be discarded.
pub proof fn lemma_rollback_on_non_success<T>(status: u16, drained: Option<T>)
    requires
        !spec_is_success(status),
    ensures
        !(spec_plan(spec_is_success(status), drained) is Commit),
        spec_plan(spec_is_success(status), drained) == FinalizePlan::Discard(drained),
{
}

/// Finalizing a request that never acquired a transaction is a no-op
/// success: nothing is committed and nothing is discarded.
pub proof fn lemma_finalize_noop_when_never_acquired<T>(status: u16)
    requires
        spec_is_success(status),
    ensures
        spec_plan(spec_is_success(status), Option::<T>::None) == FinalizePlan::<T>::Nothing,
{
}

} // verus!
