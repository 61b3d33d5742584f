//! Request-bound database transactions, with the binding protocol verified.
//!
//! One in-flight request owns at most one transaction. The transaction is
//! started lazily, on the first use of the per-request accessor, and every
//! later accessor call on the same request reuses it. When the downstream
//! pipeline has produced its response, the response's status decides the fate
//! of the transaction: a success status commits it, anything else lets it be
//! dropped uncommitted (the transaction type's drop semantics roll it back).
//!
//! This crate holds the protocol itself: the single-occupancy [`Slot`] /
//! [`Lease`] custody primitive, the lazily started per-request binding
//! ([`Lazy`] and [`TxSlot`]), and the commit-or-discard decision
//! ([`plan_finalize`]). Everything here is synchronous logic over plain
//! values, stated in contracts and checked. The asynchronous edges — starting
//! a transaction on a `sea_orm` connection, committing it, and the HTTP
//! middleware and extractor plumbing — live in the surrounding adapter crate,
//! which drives these functions and performs the actions they decide on.

use vstd::prelude::*;

pub mod outcome;
pub mod slot;
pub mod tx;

pub use outcome::is_success_status;
pub use outcome::plan_finalize;
pub use outcome::spec_is_success;
pub use outcome::FinalizePlan;
pub use slot::Lease;
pub use slot::Slot;
pub use tx::require_binding;
pub use tx::AccessStep;
pub use tx::Lazy;
pub use tx::LazyPhase;
pub use tx::TxSlot;

verus! {

/// Declares `sea_orm::DbErr`, the database library's error type, so that a
/// value of it can be carried opaquely inside [`Error`]. Nothing is assumed
/// about it and no method of it is called here.
#[verifier::external_type_specification]
#[verifier::external_body]
pub struct ExDbErr(sea_orm::DbErr);

/// Why an accessor call could not hand out the request's transaction.
#[derive(Debug)]
pub enum Error {
    /// The accessor was invoked on a request that never had the middleware
    /// installed, so no lazily started transaction was bound to it.
    MissingExtension,
    /// The accessor was invoked while another lease on the same request's
    /// transaction was still outstanding, or after an explicit commit
    /// removed the transaction for good.
    OverlappingExtractors,
    /// The database reported an error when the transaction was started.
    Database { error: sea_orm::DbErr },
}

} // verus!
