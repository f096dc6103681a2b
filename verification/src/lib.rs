//! A mutable cell intended for deliberate cross-thread sharing.
//!
//! `SyncUnsafeCell<T>` wraps a single value of `T` with no extra state. The
//! wrapper performs no synchronization and makes no runtime checks: whatever
//! discipline (locks, disjoint regions, orderings) is needed for concurrent
//! access is entirely the caller's responsibility. The operations here are
//! total: construction, unwrapping, and exclusive access never fail.
//!
//! The raw-pointer accessors and the cross-thread sharing marker itself are
//! unsafe by nature and live outside this verified core; what is verified
//! here is the ownership story: a cell holds exactly the value it was built
//! from, unwrapping returns it, and mutation through an exclusive reference
//! is reflected in the cell.

use vstd::prelude::*;

verus! {

/// A cell holding a single value of `T`, with no header or metadata beside it.
///
/// The cell exclusively owns its value: it is created by wrapping a value and
/// gives it back, moved out, when unwrapped.
pub struct SyncUnsafeCell<T> {
    value: T,
}

impl<T> View for SyncUnsafeCell<T> {
    type V = T;

    /// The value a cell currently holds.
    closed spec fn view(&self) -> T {
        self.value
    }
}

impl<T> SyncUnsafeCell<T> {
    /// The cell that wraps a given value.
    pub closed spec fn spec_wrap(value: T) -> SyncUnsafeCell<T> {
        SyncUnsafeCell { value }
    }

    /// Constructs a new cell wrapping `value`. Always succeeds; the cell
    /// takes ownership of the value and holds exactly it.
    pub fn new(value: T) -> (cell: SyncUnsafeCell<T>)
        ensures
            cell == SyncUnsafeCell::spec_wrap(value),
            cell@ == value,
    {
        SyncUnsafeCell { value }
    }

    /// Unwraps the cell, moving the held value out. Consuming the cell ends
    /// its lifecycle: no alias into it can remain afterwards.
    pub fn into_inner(self) -> (value: T)
        ensures
            value == self@,
    {
        self.value
    }

    /// Returns an exclusive reference to the held value.
    ///
    /// Exclusive access to the cell implies exclusive access to its contents,
    /// so no runtime check is needed. Whatever the caller writes through the
    /// returned reference is what the cell holds afterwards.
    pub fn get_mut(&mut self) -> (inner: &mut T)
        ensures
            *inner == old(self)@,
            final(self)@ == *final(inner),
    {
        &mut self.value
    }
}

impl<T: Default> Default for SyncUnsafeCell<T> {
    /// Constructs a cell wrapping the default value of `T`: a pure
    /// convenience equivalent of `SyncUnsafeCell::new(T::default())`.
    fn default() -> (cell: SyncUnsafeCell<T>)
        ensures
            call_ensures(T::default, (), cell@),
            cell == SyncUnsafeCell::spec_wrap(cell@),
    {
        SyncUnsafeCell::new(T::default())
    }
}

impl<T> From<T> for SyncUnsafeCell<T> {
    /// Constructs a cell wrapping `value`: a pure convenience equivalent of
    /// `SyncUnsafeCell::new(value)`.
    fn from(value: T) -> (cell: SyncUnsafeCell<T>)
        ensures
            cell == SyncUnsafeCell::spec_wrap(value),
            cell@ == value,
    {
        SyncUnsafeCell::new(value)
    }
}

impl<T> vstd::std_specs::convert::FromSpecImpl<T> for SyncUnsafeCell<T> {
    open spec fn obeys_from_spec() -> bool {
        true
    }

    open spec fn from_spec(value: T) -> SyncUnsafeCell<T> {
        SyncUnsafeCell::spec_wrap(value)
    }
}

/// Round trip: wrapping a value and unwrapping the cell yields that value
/// back. `new(v)` returns exactly `spec_wrap(v)`, and `into_inner` returns
/// the cell's view, so the two compose to the identity.
pub proof fn lemma_wrap_unwrap<T>(value: T)
    ensures
        SyncUnsafeCell::spec_wrap(value)@ == value,
{
}

/// Conversion equivalence: the implicit-conversion path builds the very cell
/// the explicit constructor builds, so the two unwrap to the same value.
pub proof fn lemma_from_equals_new<T>(value: T)
    ensures
        <SyncUnsafeCell<T> as vstd::std_specs::convert::FromSpec<T>>::from_spec(value)
            == SyncUnsafeCell::spec_wrap(value),
        SyncUnsafeCell::spec_wrap(value)@ == value,
{
}

} // verus!
