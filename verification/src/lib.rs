//! Wrapper types that guarantee their secret contents are overwritten at a
//! single, well-defined end-of-life point.
//!
//! Three families are provided:
//! - [`ZeroDrop`]: owns a heap allocation of plain bytes and overwrites every
//!   byte with the erasure pattern (zero) at end of life.
//! - [`ZeroDropDrop`]: owns a value with its own teardown logic; at end of
//!   life it runs that teardown, replaces the value with the type's empty
//!   value, and runs the replacement's teardown too.
//! - [`ZeroDropCow`]: either a non-owning view of caller-managed bytes (no
//!   erasure obligation) or an owning, erasable allocation.
//!
//! Equality on secrets is exposed only through a constant-time comparison, so
//! that comparing two secrets does not leak their contents through timing.
//!
//! Each wrapper's erasure step is an explicit end-of-life hook with a checked
//! postcondition: after the hook runs, the memory that backed the secret holds
//! only the erasure pattern, and before it runs, nothing else has erased.

use vstd::prelude::*;

mod cow;
mod ct;
mod zd;
mod zdd;

pub use cow::ZeroDropCow;
pub use zd::ZeroDrop;
pub use zdd::CountedSecret;
pub use zdd::Teardown;
pub use zdd::ZeroDropDrop;

verus! {

/// The erasure pattern: every byte of the sequence is zero.
pub open spec fn all_zero(s: Seq<u8>) -> bool {
    forall|i: int| 0 <= i < s.len() ==> s[i] == 0
}

} // verus!
