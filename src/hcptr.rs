//! HCPTR (*Hyp Architectural Feature Trap Register*).

use vstd::prelude::*;

use crate::bits::{bit_of, get_bit, put_bit, with_bit_of};

verus! {

/// HCPTR (*Hyp Architectural Feature Trap Register*)
#[derive(Clone, Copy, Debug, PartialEq, Eq, Structural)]
pub struct Hcptr {
    raw: u32,
}

impl Hcptr {
    /// The raw register value.
    pub closed spec fn raw_spec(self) -> u32 {
        self.raw
    }

    /// Wraps a raw value as it stands.
    pub fn new_with_raw_value(raw: u32) -> (r: Hcptr)
        ensures
            r.raw_spec() == raw,
    {
        Hcptr { raw }
    }

    /// The raw value.
    pub fn raw_value(&self) -> (r: u32)
        ensures
            r == self.raw_spec(),
    {
        self.raw
    }

    /// TCPAC - Traps EL1 accesses to the CPACR to Hyp mode
    pub fn tcpac(&self) -> (r: bool)
        ensures
            r == bit_of(self.raw_spec(), 31),
    {
        get_bit(self.raw, 31)
    }

    /// This value with `tcpac` set to `v`; every other bit is kept.
    pub fn with_tcpac(self, v: bool) -> (r: Hcptr)
        ensures
            r.raw_spec() == with_bit_of(self.raw_spec(), 31, v),
    {
        Hcptr { raw: put_bit(self.raw, 31, v) }
    }

    /// TTA - Traps System register accesses to all implemented trace registers to Hyp mode
    pub fn tta(&self) -> (r: bool)
        ensures
            r == bit_of(self.raw_spec(), 20),
    {
        get_bit(self.raw, 20)
    }

    /// This value with `tta` set to `v`; every other bit is kept.
    pub fn with_tta(self, v: bool) -> (r: Hcptr)
        ensures
            r.raw_spec() == with_bit_of(self.raw_spec(), 20, v),
    {
        Hcptr { raw: put_bit(self.raw, 20, v) }
    }

    /// TASE - Traps execution of Advanced SIMD instructions to Hyp mode when the value of HCPTR.TCP10 is 0.
    pub fn tase(&self) -> (r: bool)
        ensures
            r == bit_of(self.raw_spec(), 15),
    {
        get_bit(self.raw, 15)
    }

    /// This value with `tase` set to `v`; every other bit is kept.
    pub fn with_tase(self, v: bool) -> (r: Hcptr)
        ensures
            r.raw_spec() == with_bit_of(self.raw_spec(), 15, v),
    {
        Hcptr { raw: put_bit(self.raw, 15, v) }
    }

    /// TCP - Trap accesses to Advanced SIMD and floating-point functionality to Hyp mode
    pub fn tcp(&self) -> (r: bool)
        ensures
            r == bit_of(self.raw_spec(), 10),
    {
        get_bit(self.raw, 10)
    }

    /// This value with `tcp` set to `v`; every other bit is kept.
    pub fn with_tcp(self, v: bool) -> (r: Hcptr)
        ensures
            r.raw_spec() == with_bit_of(self.raw_spec(), 10, v),
    {
        Hcptr { raw: put_bit(self.raw, 10, v) }
    }

    /// The computing step of a read-modify-write of HCPTR: applies `f` to
    /// the value that was read and gives back the value to write. The read
    /// and the write are hardware accesses, made by the caller; the sequence
    /// is not atomic.
    pub fn modify<F: FnOnce(Hcptr) -> Hcptr>(value: Hcptr, f: F) -> (r: Hcptr)
        requires
            f.requires((value,)),
        ensures
            f.ensures((value,), r),
    {
        f(value)
    }
}

} // verus!
