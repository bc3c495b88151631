//! Borrow-or-own secret reference: either a non-owning view of existing
//! bytes, or an owning, erasable allocation.

use vstd::prelude::*;

use crate::all_zero;
use crate::zd::ZeroDrop;

verus! {

/// A secret reference that either borrows caller-managed bytes or owns an
/// erasable allocation.
///
/// The `Borrowed` state carries no erasure obligation: its end of life is a
/// no-op and the borrowed memory is never written. The `Boxed` state behaves
/// exactly like [`ZeroDrop`], including the erase-at-end-of-life guarantee.
pub enum ZeroDropCow<'a> {
    /// Borrowed data, owned and later erased (or not) by the caller.
    Borrowed(&'a [u8]),
    /// Owned data, erased when this reference's life ends.
    Boxed(ZeroDrop),
}

impl<'a> View for ZeroDropCow<'a> {
    type V = Seq<u8>;

    closed spec fn view(&self) -> Seq<u8> {
        match self {
            ZeroDropCow::Borrowed(b) => b@,
            ZeroDropCow::Boxed(z) => z@,
        }
    }
}

impl<'a> ZeroDropCow<'a> {
    /// Borrow existing bytes, taking no erasure obligation.
    pub fn new(t: &'a [u8]) -> (r: Self)
        ensures
            r == ZeroDropCow::Borrowed(t),
            r@ == t@,
    {
        ZeroDropCow::Borrowed(t)
    }

    /// Own a secret passed on the stack.
    ///
    /// Insecure in the same sense as [`ZeroDrop::new_insecure`]: a copy of
    /// `t` may linger on the call stack.
    pub fn new_insecure<const N: usize>(t: [u8; N]) -> (r: Self)
        ensures
            r is Boxed,
            r@ == t@,
    {
        ZeroDropCow::Boxed(ZeroDrop::new_insecure(t))
    }

    /// Own a fresh copy of a borrowed secret; the source is not affected.
    pub fn new_copy(t: &[u8]) -> (r: Self)
        ensures
            r is Boxed,
            r@ == t@,
    {
        ZeroDropCow::Boxed(ZeroDrop::new_copy(t))
    }

    /// Promote to a plain owning box.
    ///
    /// A `Borrowed` reference allocates and copies, leaving the borrowed
    /// original untouched; a `Boxed` reference hands over its existing
    /// allocation without copying. Either way the result holds exactly the
    /// bytes this reference viewed.
    pub fn into_boxed(self) -> (z: ZeroDrop)
        ensures
            z@ == self@,
    {
        match self {
            ZeroDropCow::Borrowed(b) => ZeroDrop::new_copy(b),
            ZeroDropCow::Boxed(z) => z,
        }
    }

    /// Read access to the viewed bytes, identical in both states.
    pub fn get(&self) -> (r: &[u8])
        ensures
            r@ == self@,
    {
        match self {
            ZeroDropCow::Borrowed(b) => b,
            ZeroDropCow::Boxed(z) => z.get(),
        }
    }

    /// The end-of-life step.
    ///
    /// A `Borrowed` reference is left exactly as it was: it still holds the
    /// same reference, and the memory it borrows is never written. A `Boxed`
    /// reference has its allocation overwritten with zero, size preserved.
    pub fn erase(&mut self)
        ensures
            *old(self) is Borrowed ==> *final(self) == *old(self),
            *old(self) is Boxed ==> *final(self) is Boxed && all_zero(final(self)@)
                && final(self)@.len() == old(self)@.len(),
    {
        match self {
            ZeroDropCow::Borrowed(_) => {},
            ZeroDropCow::Boxed(z) => {
                z.zero_out();
            },
        }
    }
}

/// Cloning reborrows a `Borrowed` reference (no allocation), and deep-copies
/// a `Boxed` one into a new allocation, so erasure stays independent per
/// owning instance.
impl<'a> Clone for ZeroDropCow<'a> {
    fn clone(&self) -> (r: Self)
        ensures
            r@ == self@,
            *self is Borrowed ==> r == *self,
            *self is Boxed ==> r is Boxed,
    {
        match self {
            ZeroDropCow::Borrowed(b) => ZeroDropCow::Borrowed(b),
            ZeroDropCow::Boxed(z) => ZeroDropCow::Boxed(z.clone()),
        }
    }
}

} // verus!
