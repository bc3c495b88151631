//! Fixed-layout secret box: one heap allocation of bytes, overwritten with
//! zero at end of life.

use vstd::prelude::*;

use crate::all_zero;
use crate::ct::ct_slice_eq;

verus! {

/// An owning wrapper around one heap allocation of secret bytes.
///
/// The wrapper is the sole owner of its allocation: erasing one box can never
/// affect any other box or any borrowed memory. The allocation's size is fixed
/// at construction and every operation preserves it. The erasure step,
/// [`ZeroDrop::zero_out`], overwrites every byte with zero and is the box's
/// single end-of-life hook: the owner calls it once, at the point where the
/// box's life ends, on every exit path.
pub struct ZeroDrop {
    data: Vec<u8>,
}

impl View for ZeroDrop {
    type V = Seq<u8>;

    closed spec fn view(&self) -> Seq<u8> {
        self.data@
    }
}

impl ZeroDrop {
    /// Construct from a secret value passed on the stack.
    ///
    /// Insecure in the sense that `t` is a stack value, so a copy of the
    /// secret may linger on the call stack after the box takes ownership;
    /// prefer [`ZeroDrop::new_copy`] when the secret already lives elsewhere.
    pub fn new_insecure<const N: usize>(t: [u8; N]) -> (s: Self)
        ensures
            s@ == t@,
    {
        Self::new_copy(t.as_slice())
    }

    /// Use a provided heap allocation as the box's own.
    pub fn new_box(b: Vec<u8>) -> (s: Self)
        ensures
            s@ == b@,
    {
        ZeroDrop { data: b }
    }

    /// Allocate a fresh block and copy the secret into it byte by byte from a
    /// reference, without materializing an intermediate stack copy.
    pub fn new_copy(t: &[u8]) -> (s: Self)
        ensures
            s@ == t@,
    {
        let n = t.len();
        let mut data: Vec<u8> = Vec::with_capacity(n);
        let mut i: usize = 0;
        while i < n
            invariant
                i <= n,
                n == t@.len(),
                data@ == t@.subrange(0, i as int),
            decreases n - i,
        {
            data.push(t[i]);
            proof {
                assert(data@ =~= t@.subrange(0, i + 1));
            }
            i = i + 1;
        }
        proof {
            assert(data@ =~= t@);
        }
        ZeroDrop { data }
    }

    /// A box of `len` bytes with the erasure pattern already applied.
    pub fn new_zeroed(len: usize) -> (s: Self)
        ensures
            s@.len() == len,
            all_zero(s@),
    {
        ZeroDrop { data: vec![0u8; len] }
    }

    /// Read access to the contained secret, for the box's lifetime.
    pub fn get(&self) -> (r: &[u8])
        ensures
            r@ == self@,
    {
        self.data.as_slice()
    }

    /// Exclusive write access to one byte of the contained secret.
    pub fn set_byte(&mut self, i: usize, v: u8)
        requires
            i < old(self)@.len(),
        ensures
            final(self)@ == old(self)@.update(i as int, v),
    {
        self.data.set(i, v);
    }

    /// Overwrite the whole secret from a source of the same size.
    pub fn copy_from(&mut self, src: &[u8])
        requires
            src@.len() == old(self)@.len(),
        ensures
            final(self)@ == src@,
    {
        let n = src.len();
        let mut i: usize = 0;
        while i < n
            invariant
                i <= n,
                n == src@.len(),
                self.data@.len() == n,
                forall|j: int| 0 <= j < i ==> self.data@[j] == src@[j],
            decreases n - i,
        {
            self.data.set(i, src[i]);
            i = i + 1;
        }
        proof {
            assert(self.data@ =~= src@);
        }
    }

    /// The erasure step: overwrite every byte of the allocation with zero.
    ///
    /// The owner calls this exactly at end of life. The allocation's size is
    /// preserved, so the memory that backed the secret reads back as all zero
    /// afterwards — and not before, since no other operation erases.
    pub fn zero_out(&mut self)
        ensures
            final(self)@.len() == old(self)@.len(),
            all_zero(final(self)@),
    {
        let n = self.data.len();
        let mut i: usize = 0;
        while i < n
            invariant
                i <= n,
                self.data@.len() == n,
                forall|j: int| 0 <= j < i ==> self.data@[j] == 0,
            decreases n - i,
        {
            self.data[i] = 0;
            i = i + 1;
        }
    }

    /// Constant-time equality: the only equality path exposed on secrets.
    pub fn ct_eq(&self, other: &ZeroDrop) -> (r: bool)
        ensures
            r == (self@ == other@),
    {
        ct_slice_eq(self.data.as_slice(), other.data.as_slice())
    }
}

/// Cloning allocates an independent block through the same copy-from-reference
/// path, so the clone's later erasure cannot affect the original, nor the
/// original's the clone's.
impl Clone for ZeroDrop {
    fn clone(&self) -> (s: Self)
        ensures
            s@ == self@,
    {
        Self::new_copy(self.data.as_slice())
    }
}

} // verus!
