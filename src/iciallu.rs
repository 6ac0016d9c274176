//! ICIALLU (*Invalidate all instruction caches to PoU.*)
//!
//! Starting with ARMv6, the type of cache can be determined from the System
//! Coprocessor register 0, and controlled through registers 1, 7 and 9. In
//! earlier architecture variants, it is IMPLEMENTATION DEFINED whether this
//! instruction is supported.

use vstd::prelude::*;

verus! {

/// ICIALLU: a write-only operation register; writing it (with any value)
/// invalidates all instruction caches.
#[derive(Clone, Copy, Debug)]
pub struct Iciallu;

} // verus!
