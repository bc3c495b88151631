//! Resource-owning secret box: extends the erase-at-end-of-life guarantee to
//! values that must run their own teardown logic first.

use vstd::prelude::*;

verus! {

/// A secret value that owns further resources and has teardown logic of its
/// own, together with a defined empty state.
///
/// Implementors report each run of their teardown by advancing a
/// caller-supplied tally, which makes the number of teardowns observable to
/// callers and to this crate's contracts.
pub trait Teardown: Sized {
    /// Whether the value still holds its resources (its teardown has not run).
    spec fn live(&self) -> bool;

    /// Whether the value is the type's defined empty state.
    spec fn is_empty_state(&self) -> bool;

    /// Run the value's own teardown, releasing the resources it owns and
    /// advancing the tally by exactly one.
    fn teardown(&mut self, tally: &mut u64)
        requires
            old(self).live(),
            *old(tally) < u64::MAX,
        ensures
            !final(self).live(),
            *final(tally) == *old(tally) + 1,
    ;

    /// The type's defined empty value, a valid live instance.
    fn empty() -> (r: Self)
        ensures
            r.live(),
            r.is_empty_state(),
    ;
}

/// An owning wrapper around one secret value with teardown logic.
///
/// End of life runs, in strict order: the contained value's own teardown,
/// then an overwrite of the value with the type's empty value, whose own
/// teardown runs in turn as the wrapper's life concludes. The contained
/// value's teardown therefore runs exactly twice per wrapper life — once on
/// the original value, once on the replacement — a deliberate, accepted
/// invariant rather than something this wrapper tries to suppress.
///
/// The overwrite touches only the value's top-level footprint. Heap memory
/// that the value's resources occupied is cleared only as far as the value's
/// own teardown clears it: types with nested dynamic allocations that must be
/// deeply erased need a mechanism of their own.
pub struct ZeroDropDrop<T: Teardown> {
    inner: T,
}

impl<T: Teardown> ZeroDropDrop<T> {
    /// The contained value.
    pub closed spec fn value(&self) -> T {
        self.inner
    }

    /// Well-formedness: the contained value is live, so its teardown is still
    /// owed and can still run.
    pub open spec fn wf(&self) -> bool {
        self.value().live()
    }

    /// A wrapper around the type's empty value.
    pub fn new_default() -> (s: Self)
        ensures
            s.wf(),
            s.value().is_empty_state(),
    {
        ZeroDropDrop { inner: T::empty() }
    }

    /// Take ownership of a live secret value.
    ///
    /// Insecure in the same sense as [`crate::ZeroDrop::new_insecure`]: `t`
    /// is passed on the stack, so a copy of it may linger there.
    pub fn new_insecure(t: T) -> (s: Self)
        requires
            t.live(),
        ensures
            s.wf(),
            s.value() == t,
    {
        ZeroDropDrop { inner: t }
    }

    /// Read access to the contained value, for the wrapper's lifetime.
    pub fn get(&self) -> (r: &T)
        ensures
            *r == self.value(),
    {
        &self.inner
    }

    /// Exclusive write access to the contained value.
    ///
    /// The caller must leave the value live for the wrapper to stay
    /// well-formed.
    pub fn get_mut(&mut self) -> (r: &mut T)
        ensures
            *r == old(self).value(),
            final(self).value() == *final(r),
    {
        &mut self.inner
    }

    /// The end-of-life step: tear the contained value down, overwrite it with
    /// the type's empty value, and run the replacement's own teardown as the
    /// wrapper's life concludes.
    ///
    /// The tally advances by exactly two — once for the original value's
    /// teardown and once for the replacement empty value's.
    pub fn destroy(self, tally: &mut u64)
        requires
            self.wf(),
            *old(tally) < u64::MAX - 1,
        ensures
            *final(tally) == *old(tally) + 2,
    {
        let ZeroDropDrop { inner: mut v } = self;
        v.teardown(tally);
        v = T::empty();
        v.teardown(tally);
    }
}

/// A worked example of a resource-owning secret: a key held in a nested heap
/// allocation, whose teardown zeroes that allocation and then frees it.
pub struct CountedSecret {
    key: Vec<u8>,
    held: bool,
}

impl CountedSecret {
    /// The bytes of the contained key.
    pub closed spec fn key_view(&self) -> Seq<u8> {
        self.key@
    }

    /// A live secret holding the given key.
    pub fn with_key(key: Vec<u8>) -> (r: Self)
        ensures
            r.live(),
            r.key_view() == key@,
    {
        CountedSecret { key, held: true }
    }

    /// Read access to the key.
    pub fn key(&self) -> (r: &[u8])
        ensures
            r@ == self.key_view(),
    {
        self.key.as_slice()
    }
}

impl Teardown for CountedSecret {
    closed spec fn live(&self) -> bool {
        self.held
    }

    open spec fn is_empty_state(&self) -> bool {
        self.key_view().len() == 0
    }

    /// Zero the nested key allocation, free it, and advance the tally.
    fn teardown(&mut self, tally: &mut u64) {
        let n = self.key.len();
        let mut i: usize = 0;
        while i < n
            invariant
                i <= n,
                self.key@.len() == n,
            decreases n - i,
        {
            self.key[i] = 0;
            i = i + 1;
        }
        self.key.clear();
        self.held = false;
        *tally = *tally + 1;
    }

    fn empty() -> (r: Self) {
        CountedSecret { key: Vec::new(), held: true }
    }
}

} // verus!
