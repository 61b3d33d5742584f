//! The single-occupancy custody primitive.
//!
//! A [`Slot`] holds zero or one value and can put that value out on loan to
//! at most one [`Lease`] at a time. The lease holder has exclusive custody:
//! it may use the value, replace it, give it back (which refills the slot),
//! or steal it for good (which leaves the slot permanently empty).

use vstd::prelude::*;

verus! {

/// A single-occupancy container whose value can be out on loan to at most
/// one [`Lease`] at a time.
pub enum Slot<T> {
    /// No value is present and none is on loan. Nothing ever refills a slot
    /// in this state, so it can hand out no further lease.
    Empty,
    /// A value is present and may be leased.
    Filled(T),
    /// The value is out on loan to exactly one [`Lease`].
    Leased,
}

/// Exclusive, temporary custody of the value taken from a [`Slot`].
///
/// The holder may read and replace the value freely; whatever the lease
/// holds when it is given back through [`Slot::release`] is what refills the
/// slot, and [`Slot::steal`] takes it out for good instead. Giving a lease
/// back is an explicit call here; code around the library that hands leases
/// to scoped guard objects makes that call on every path that ends the
/// holder's scope.
pub struct Lease<T> {
    value: T,
}

impl<T> View for Lease<T> {
    type V = T;

    closed spec fn view(&self) -> T {
        self.value
    }
}

impl<T> Lease<T> {
    /// Borrows the leased value.
    pub fn get(&self) -> (v: &T)
        ensures
            *v == self@,
    {
        &self.value
    }

    /// Borrows the leased value mutably.
    pub fn get_mut(&mut self) -> (v: &mut T)
        ensures
            *v == old(self)@,
            final(self)@ == *final(v),
    {
        &mut self.value
    }

    /// Swaps the leased value for another, returning the previous one.
    pub fn replace(&mut self, value: T) -> (prev: T)
        ensures
            prev == old(self)@,
            final(self)@ == value,
    {
        let mut value = value;
        core::mem::swap(&mut self.value, &mut value);
        value
    }
}

impl<T> Slot<T> {
    /// Constructs a filled slot.
    pub fn new(value: T) -> (s: Slot<T>)
        ensures
            s == Slot::Filled(value),
    {
        Slot::Filled(value)
    }

    /// Constructs a slot whose value is already out on loan: the returned
    /// lease holds `value`, and giving the lease back is what first fills
    /// the slot.
    pub fn new_leased(value: T) -> (r: (Slot<T>, Lease<T>))
        ensures
            r.0 is Leased,
            r.1@ == value,
    {
        (Slot::Leased, Lease { value })
    }

    /// Whether a [`Slot::lease`] call on this slot would succeed.
    pub open spec fn spec_can_lease(self) -> bool {
        self is Filled
    }

    /// The slot as it stands after a [`Slot::lease`] call, successful or not.
    pub open spec fn spec_after_lease(self) -> Slot<T> {
        if self is Filled {
            Slot::Leased
        } else {
            self
        }
    }

    /// Puts the value out on loan. Returns `Some` exactly when the slot is
    /// filled; a slot that is empty, or whose value is already on loan,
    /// yields `None` and is left as it was.
    pub fn lease(&mut self) -> (r: Option<Lease<T>>)
        ensures
            *final(self) == old(self).spec_after_lease(),
            *old(self) matches Slot::Filled(v) ==> (r matches Some(l) && l@ == v),
            !old(self).spec_can_lease() ==> r is None,
    {
        let mut taken = Slot::Leased;
        core::mem::swap(self, &mut taken);
        match taken {
            Slot::Filled(value) => Some(Lease { value }),
            other => {
                *self = other;
                None
            },
        }
    }

    /// Returns the loaned value — or whatever the holder put in its place —
    /// to the slot, consuming the lease.
    pub fn release(&mut self, lease: Lease<T>)
        requires
            *old(self) is Leased,
        ensures
            *final(self) == Slot::Filled(lease@),
    {
        *self = Slot::Filled(lease.value);
    }

    /// Takes the loaned value out for good, consuming the lease and leaving
    /// the slot empty: no further lease can ever be issued from it.
    pub fn steal(&mut self, lease: Lease<T>) -> (v: T)
        requires
            *old(self) is Leased,
        ensures
            v == lease@,
            *final(self) is Empty,
    {
        *self = Slot::Empty;
        lease.value
    }

    /// What draining the slot yields: its content when it is filled, nothing
    /// when it is empty or its value is still on loan.
    pub open spec fn spec_drain(self) -> Option<T> {
        match self {
            Slot::Filled(v) => Some(v),
            _ => None,
        }
    }

    /// Drains the slot, taking ownership of whatever is currently inside.
    pub fn into_inner(self) -> (r: Option<T>)
        ensures
            r == self.spec_drain(),
    {
        match self {
            Slot::Filled(v) => Some(v),
            _ => None,
        }
    }
}

/// At most one lease is ever outstanding per slot: whatever state a slot is
/// in, after one [`Slot::lease`] call — successful or not — an immediately
/// following [`Slot::lease`] call without an intervening [`Slot::release`]
/// yields `None`. Two consecutive calls therefore produce at most one lease.
pub proof fn lemma_at_most_one_lease<T>(s: Slot<T>)
    ensures
        !s.spec_after_lease().spec_can_lease(),
{
}

/// An empty slot is empty for good: a lease is never issued from it and no
/// lease attempt moves it to another state. Together with [`Slot::steal`]
/// leaving the slot empty, this is what makes a stolen value final.
pub proof fn lemma_empty_is_permanent<T>(s: Slot<T>)
    requires
        s is Empty,
    ensures
        !s.spec_can_lease(),
        s.spec_after_lease() == s,
{
}

} // verus!
