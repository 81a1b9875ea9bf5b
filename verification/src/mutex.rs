//! The wrapper, its accessors, and the laws of its storage.

use vstd::prelude::*;

verus! {

/// Wrapper that exchanges shared access for exclusive access.
///
/// # Correctness
/// A `T` that is not `Sync` needs all references to one instance to live on
/// one thread. `WeirdMutex` keeps to that by not projecting
/// `&WeirdMutex<T>` to `&T`: `get` and `get_mut` borrow the wrapper
/// mutably, so at most one holder can reach the stored value at a time.
/// The one accessor that takes `&self` is `get_unchecked`, which leaves
/// the discipline to its caller.
///
/// # Model
/// The view of a wrapper is the value it stores. There is no other state:
/// see [`lemma_same_value_same_wrapper`].
///
/// # Drawbacks
/// Nothing that would read the value through `&self` is offered: no
/// `Clone`, no comparison, no hashing, and the debug text names the stored
/// type only.
pub struct WeirdMutex<T>(T);

impl<T> View for WeirdMutex<T> {
    type V = T;

    closed spec fn view(&self) -> T {
        self.0
    }
}

impl<T> WeirdMutex<T> {
    /// The wrapper that stores `value`.
    pub closed spec fn spec_new(value: T) -> WeirdMutex<T> {
        WeirdMutex(value)
    }

    /// Wraps a value in the `WeirdMutex`.
    #[verifier::when_used_as_spec(spec_new)]
    pub fn new(value: T) -> (m: WeirdMutex<T>)
        ensures
            m == Self::spec_new(value),
            m@ == value,
    {
        WeirdMutex(value)
    }

    /// The primary way to access the stored value.
    ///
    /// The reference points at the stored value itself: it starts out as
    /// the value stored before the call, and whatever it holds when the
    /// borrow ends is what the wrapper stores from then on.
    pub fn get_mut(&mut self) -> (inner: &mut T)
        ensures
            *inner == old(self)@,
            final(self)@ == *final(inner),
    {
        &mut self.0
    }

    /// Shared view of the stored value for a holder of exclusive access.
    ///
    /// Same access path as `get_mut`, with the reference demoted to a
    /// shared one; the wrapper is left as it was.
    pub fn get(&mut self) -> (inner: &T)
        ensures
            *inner == old(self)@,
            *final(self) == *old(self),
    {
        let exclusive = self.get_mut();
        &*exclusive
    }

    /// Unchecked shared getter.
    ///
    /// # Caller's duty
    /// This is the one accessor that does not ask for exclusive access to
    /// the wrapper. The type as defined here is `Sync` only where `T` is,
    /// so the call is sound by itself. Code that declares a wrapper `Sync`
    /// for every `T` must not pass this accessor on as a safe function:
    /// there the caller has to make sure by other means that only one
    /// thread holds references to the stored value.
    pub fn get_unchecked(&self) -> (inner: &T)
        ensures
            *inner == self@,
    {
        &self.0
    }
}

/// A wrapped value is the value that the accessors reach: what `new`
/// stores is what `get_mut`, `get` and `get_unchecked` point at.
pub proof fn lemma_new_stores_value<T>(value: T)
    ensures
        WeirdMutex::new(value)@ == value,
{
}

/// A wrapper holds its value and nothing besides, no lock state, no count
/// and no second copy: wrappers that store the same value are equal.
pub proof fn lemma_same_value_same_wrapper<T>(a: WeirdMutex<T>, b: WeirdMutex<T>)
    requires
        a@ == b@,
    ensures
        a == b,
{
}

/// Every wrapper is the one that `new` makes from its stored value.
pub proof fn lemma_wrapper_is_new_of_value<T>(m: WeirdMutex<T>)
    ensures
        WeirdMutex::new(m@) == m,
{
}

/// Successive accesses reach one and the same storage.
///
/// Take two accesses in a row, each through `get_mut` or `get`. The first
/// borrows the wrapper `m0`, finds `found1` behind the reference and leaves
/// `left1` there, so that the wrapper is `m1` when the borrow is over; the
/// second borrows `m1`, finds `found2`, leaves `left2`, and the wrapper is
/// `m2`. The hypotheses are what the accessors promise of each call (for
/// `get`, what is left is what was found). Then the second access finds
/// exactly what the first one left, and the wrapper ends as the one that
/// stores what the second one left.
pub proof fn lemma_accesses_share_storage<T>(
    m0: WeirdMutex<T>,
    found1: T,
    left1: T,
    m1: WeirdMutex<T>,
    found2: T,
    left2: T,
    m2: WeirdMutex<T>,
)
    requires
        found1 == m0@,
        m1@ == left1,
        found2 == m1@,
        m2@ == left2,
    ensures
        found2 == left1,
        m2 == WeirdMutex::new(left2),
{
}

} // verus!
