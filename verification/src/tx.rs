//! The per-request transaction binding.
//!
//! At request entry, [`TxSlot::bind`] creates the request's anchor and a
//! [`Lazy`] binding that travels with the request. Accessor calls go through
//! [`Lazy::access`]: the first one learns that a transaction must be begun
//! and hands the begun transaction to [`Lazy::start`]; later ones lease the
//! same transaction again, or fail fast with
//! [`Error::OverlappingExtractors`] while it is on loan or after an explicit
//! commit removed it. At request exit the binding is given back to the
//! anchor with [`TxSlot::reclaim`], and [`TxSlot::into_transaction`] drains
//! whatever transaction the request ended up with.

use vstd::prelude::*;

use crate::slot::Lease;
use crate::slot::Slot;
use crate::Error;

verus! {

/// What an accessor call obtained, when it did not fail.
pub enum AccessStep<T> {
    /// The request's transaction was begun earlier and is free: here is the
    /// lease on it.
    Acquired(Lease<T>),
    /// No transaction has been begun for this request yet. The caller must
    /// begin one on its connection and hand it to [`Lazy::start`]; nothing
    /// was changed.
    NeedsBegin,
}

/// The lazily started transaction binding that travels with one request.
///
/// It holds, on lease from the request's [`TxSlot`], the inner slot with the
/// request's transaction — or nothing, while no transaction has been begun.
pub struct Lazy<T> {
    tx: Lease<Option<Slot<T>>>,
}

/// The abstract phases a request's transaction binding goes through.
pub enum LazyPhase {
    /// No transaction has been begun for this request.
    Unstarted,
    /// A transaction was begun and rests in the inner slot, free to lease.
    Available,
    /// The transaction is out on loan to exactly one accessor.
    Loaned,
    /// An explicit commit took the transaction out for good; every further
    /// accessor call fails.
    Spent,
}

/// The phase a binding's inner state falls under.
pub open spec fn spec_phase<T>(inner: Option<Slot<T>>) -> LazyPhase {
    match inner {
        None => LazyPhase::Unstarted,
        Some(s) => match s {
            Slot::Empty => LazyPhase::Spent,
            Slot::Filled(_) => LazyPhase::Available,
            Slot::Leased => LazyPhase::Loaned,
        },
    }
}

impl<T> View for Lazy<T> {
    type V = Option<Slot<T>>;

    closed spec fn view(&self) -> Option<Slot<T>> {
        self.tx@
    }
}

impl<T> Lazy<T> {
    /// The abstract phase of this binding.
    pub open spec fn phase(self) -> LazyPhase {
        spec_phase(self@)
    }

    /// Reports the abstract phase, so that a caller can test the
    /// preconditions of `start`, `restore` and `steal` before calling them.
    pub fn current_phase(&self) -> (p: LazyPhase)
        ensures
            p == self.phase(),
    {
        match self.tx.get() {
            None => LazyPhase::Unstarted,
            Some(slot) => match slot {
                Slot::Empty => LazyPhase::Spent,
                Slot::Filled(_) => LazyPhase::Available,
                Slot::Leased => LazyPhase::Loaned,
            },
        }
    }

    /// One accessor call: leases the request's transaction when it is begun
    /// and free, asks the caller to begin one when none exists yet, and
    /// fails fast — without waiting — when the transaction is on loan
    /// elsewhere or was removed by an explicit commit.
    pub fn access(&mut self) -> (r: Result<AccessStep<T>, Error>)
        ensures
            old(self).phase() is Unstarted ==> (r matches Ok(AccessStep::NeedsBegin)
                && final(self)@ == old(self)@),
            old(self)@ matches Some(Slot::Filled(v)) ==> (r matches Ok(AccessStep::Acquired(l))
                && l@ == v && final(self)@ == Some(Slot::<T>::Leased)
                && final(self).phase() == spec_step(old(self).phase(), LazyEvent::Acquire)),
            old(self).phase() is Loaned ==> (r matches Err(Error::OverlappingExtractors)
                && final(self)@ == old(self)@),
            old(self).phase() is Spent ==> (r matches Err(Error::OverlappingExtractors)
                && final(self)@ == old(self)@),
    {
        let current = self.tx.replace(None);
        match current {
            None => Ok(AccessStep::NeedsBegin),
            Some(mut slot) => {
                let leased = slot.lease();
                let _ = self.tx.replace(Some(slot));
                match leased {
                    Some(l) => Ok(AccessStep::Acquired(l)),
                    None => Err(Error::OverlappingExtractors),
                }
            },
        }
    }

    /// Stores the transaction the caller has just begun — after `access`
    /// answered `NeedsBegin` — and hands out the first lease on it. A
    /// binding that has left `Unstarted` never meets this function's
    /// precondition again, so a transaction is begun at most once per
    /// request.
    pub fn start(&mut self, transaction: T) -> (lease: Lease<T>)
        requires
            old(self).phase() is Unstarted,
        ensures
            lease@ == transaction,
            final(self)@ == Some(Slot::<T>::Leased),
            final(self).phase() == spec_step(old(self).phase(), LazyEvent::Begin),
    {
        let (slot, lease) = Slot::new_leased(transaction);
        let _ = self.tx.replace(Some(slot));
        lease
    }

    /// Gives a lease back, returning the transaction — or whatever the
    /// holder put in its place — to the inner slot, where the next accessor
    /// call finds it.
    pub fn restore(&mut self, lease: Lease<T>)
        requires
            old(self).phase() is Loaned,
        ensures
            final(self)@ == Some(Slot::Filled(lease@)),
            final(self).phase() == spec_step(old(self).phase(), LazyEvent::Return),
    {
        let mut slot = self.tx.replace(None).unwrap();
        slot.release(lease);
        let _ = self.tx.replace(Some(slot));
    }

    /// Consumes a lease and takes the transaction out for good, for an
    /// explicit commit. The inner slot is left permanently empty: every
    /// further accessor call on this request fails with
    /// [`Error::OverlappingExtractors`].
    pub fn steal(&mut self, lease: Lease<T>) -> (t: T)
        requires
            old(self).phase() is Loaned,
        ensures
            t == lease@,
            final(self)@ == Some(Slot::<T>::Empty),
            final(self).phase() == spec_step(old(self).phase(), LazyEvent::Steal),
    {
        let mut slot = self.tx.replace(None).unwrap();
        let t = slot.steal(lease);
        let _ = self.tx.replace(Some(slot));
        t
    }
}

/// The accessor's first check: a request that never had the middleware
/// installed carries no binding, and the accessor fails with
/// [`Error::MissingExtension`] — with that error and no other, in particular
/// never with a database error.
pub fn require_binding(present: bool) -> (r: Result<(), Error>)
    ensures
        present ==> r is Ok,
        !present ==> r matches Err(Error::MissingExtension),
{
    if present {
        Ok(())
    } else {
        Err(Error::MissingExtension)
    }
}

/// The request-scoped anchor: the outer slot that the binding is leased
/// from, kept by the middleware so that it can observe, once the request is
/// over, whatever transaction the request ended up with.
pub struct TxSlot<T> {
    slot: Slot<Option<Slot<T>>>,
}

impl<T> View for TxSlot<T> {
    type V = Slot<Option<Slot<T>>>;

    closed spec fn view(&self) -> Slot<Option<Slot<T>>> {
        self.slot
    }
}

impl<T> TxSlot<T> {
    /// Sets up one request: an anchor whose outer slot is pre-leased into a
    /// fresh binding that has begun nothing yet. The anchor stays with the
    /// middleware; the binding travels with the request.
    pub fn bind() -> (r: (TxSlot<T>, Lazy<T>))
        ensures
            r.0@ is Leased,
            r.1@ is None,
            r.1.phase() is Unstarted,
    {
        let (slot, lease) = Slot::new_leased(None);
        (TxSlot { slot }, Lazy { tx: lease })
    }

    /// Whether the binding is still out, so that a caller can test
    /// `reclaim`'s precondition before calling it.
    pub fn is_leased(&self) -> (b: bool)
        ensures
            b == (self@ is Leased),
    {
        match &self.slot {
            Slot::Leased => true,
            _ => false,
        }
    }

    /// Takes the binding back when the request is over, returning its inner
    /// state to the outer slot, from where [`TxSlot::into_transaction`] can
    /// drain it.
    pub fn reclaim(&mut self, lazy: Lazy<T>)
        requires
            old(self)@ is Leased,
        ensures
            final(self)@ == Slot::Filled(lazy@),
    {
        self.slot.release(lazy.tx);
    }

    /// The transaction a drain of the anchor yields: one is there exactly
    /// when the binding was reclaimed, a transaction was begun, and no lease
    /// on it is still out and it was not stolen by an explicit commit.
    pub open spec fn spec_transaction(self) -> Option<T> {
        match self@ {
            Slot::Filled(inner) => match inner {
                Some(s) => s.spec_drain(),
                None => None,
            },
            _ => None,
        }
    }

    /// Drains the anchor, flattening the nested slots, and takes ownership
    /// of the request's transaction if one is present.
    pub fn into_transaction(self) -> (r: Option<T>)
        ensures
            r == self.spec_transaction(),
    {
        match self.slot.into_inner() {
            Some(Some(inner)) => inner.into_inner(),
            _ => None,
        }
    }
}

/// One step of the per-request protocol, as the surrounding adapter drives
/// it.
pub enum LazyEvent {
    /// An accessor call that found no transaction begun yet, begun one, and
    /// received the first lease: `access` answering `NeedsBegin`, followed
    /// by `start`.
    Begin,
    /// An accessor call that leased the already begun transaction: `access`
    /// answering `Acquired`.
    Acquire,
    /// An accessor call that failed with `OverlappingExtractors`, leaving
    /// everything as it was.
    Clash,
    /// A lease given back through `restore`.
    Return,
    /// A lease consumed by an explicit commit through `steal`.
    Steal,
}

/// Whether an event can occur in a phase, as the contracts of `access`,
/// `start`, `restore` and `steal` allow.
pub open spec fn spec_enabled(p: LazyPhase, e: LazyEvent) -> bool {
    match e {
        LazyEvent::Begin => p is Unstarted,
        LazyEvent::Acquire => p is Available,
        LazyEvent::Clash => p is Loaned || p is Spent,
        LazyEvent::Return => p is Loaned,
        LazyEvent::Steal => p is Loaned,
    }
}

/// The phase an event leads to, as the same contracts state.
pub open spec fn spec_step(p: LazyPhase, e: LazyEvent) -> LazyPhase {
    match e {
        LazyEvent::Begin => LazyPhase::Loaned,
        LazyEvent::Acquire => LazyPhase::Loaned,
        LazyEvent::Clash => p,
        LazyEvent::Return => LazyPhase::Available,
        LazyEvent::Steal => LazyPhase::Spent,
    }
}

/// Whether a sequence of events can run, step by step, from phase `p`.
pub open spec fn spec_trace_ok(p: LazyPhase, events: Seq<LazyEvent>) -> bool
    decreases events.len(),
{
    events.len() == 0 || (spec_enabled(p, events[0])
        && spec_trace_ok(spec_step(p, events[0]), events.subrange(1, events.len() as int)))
}

/// The phase a sequence of events ends in, run from phase `p`.
pub open spec fn spec_run(p: LazyPhase, events: Seq<LazyEvent>) -> LazyPhase
    decreases events.len(),
{
    if events.len() == 0 {
        p
    } else {
        spec_run(spec_step(p, events[0]), events.subrange(1, events.len() as int))
    }
}

/// How many events of a sequence begin a transaction.
pub open spec fn spec_begin_count(events: Seq<LazyEvent>) -> nat
    decreases events.len(),
{
    if events.len() == 0 {
        0
    } else {
        (if events[0] is Begin {
            1nat
        } else {
            0nat
        }) + spec_begin_count(events.subrange(1, events.len() as int))
    }
}

/// A binding that has left `Unstarted` never returns to it: no further
/// event begins a transaction, whatever else happens.
pub proof fn lemma_begun_stays_begun(p: LazyPhase, events: Seq<LazyEvent>)
    requires
        spec_trace_ok(p, events),
        !(p is Unstarted),
    ensures
        spec_begin_count(events) == 0,
        !(spec_run(p, events) is Unstarted),
    decreases events.len(),
{
    if events.len() > 0 {
        lemma_begun_stays_begun(
            spec_step(p, events[0]),
            events.subrange(1, events.len() as int),
        );
    }
}

/// Lazy single acquisition: however many accessor calls one request sees,
/// a transaction is begun at most once — and exactly once as soon as any
/// accessor call got hold of one, which is what moves the binding out of
/// `Unstarted`.
pub proof fn lemma_single_acquisition(events: Seq<LazyEvent>)
    requires
        spec_trace_ok(LazyPhase::Unstarted, events),
    ensures
        spec_begin_count(events) <= 1,
        !(spec_run(LazyPhase::Unstarted, events) is Unstarted) ==> spec_begin_count(events) == 1,
{
    if events.len() > 0 {
        assert(events[0] is Begin);
        lemma_begun_stays_begun(
            LazyPhase::Loaned,
            events.subrange(1, events.len() as int),
        );
    }
}

/// Overlapping accessors fail fast: while the transaction is out on loan,
/// no accessor call can lease it or begin another one; the only accessor
/// step enabled for it is the clash, which changes nothing.
pub proof fn lemma_overlapping_access_clashes()
    ensures
        !spec_enabled(LazyPhase::Loaned, LazyEvent::Acquire),
        !spec_enabled(LazyPhase::Loaned, LazyEvent::Begin),
        spec_step(LazyPhase::Loaned, LazyEvent::Clash) == LazyPhase::Loaned,
{
}

/// An explicit commit is final: once the transaction was stolen, every
/// further event is a clash, the binding stays `Spent`, and no new
/// transaction is ever begun on this request.
pub proof fn lemma_explicit_commit_is_final(events: Seq<LazyEvent>)
    requires
        spec_trace_ok(LazyPhase::Spent, events),
    ensures
        spec_run(LazyPhase::Spent, events) is Spent,
        spec_begin_count(events) == 0,
        forall|i: int| 0 <= i < events.len() ==> events[i] is Clash,
    decreases events.len(),
{
    if events.len() > 0 {
        let rest = events.subrange(1, events.len() as int);
        lemma_explicit_commit_is_final(rest);
        assert forall|i: int| 0 <= i < events.len() implies events[i] is Clash by {
            if i > 0 {
                assert(events[i] == rest[i - 1]);
            }
        }
    }
}

} // verus!
