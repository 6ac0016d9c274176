//! HCR (*Hyp Configuration Register*).

use vstd::prelude::*;

use crate::bits::{bit_of, field_of, get_bit, get_field, lemma_low_masks, put_bit, put_field, with_bit_of, with_field_of};

verus! {

/// Barrier Shareability upgrade
///
/// This field determines the minimum Shareability domain that is applied to any
/// barrier instruction executed from EL1 or EL0
#[derive(Clone, Copy, Debug, PartialEq, Eq, Structural)]
pub enum Bsu {
    NoEffect,
    InnerShareable,
    OuterShareable,
    FullSystem,
}

impl Bsu {
    /// The 2-bit encoding of this value.
    pub open spec fn raw_spec(self) -> u32 {
        match self {
            Bsu::NoEffect => 0,
            Bsu::InnerShareable => 1,
            Bsu::OuterShareable => 2,
            Bsu::FullSystem => 3,
        }
    }

    /// The value whose encoding is `v` (every 2-bit pattern names one).
    pub open spec fn from_raw_spec(v: u32) -> Bsu {
        if v == 0 {
            Bsu::NoEffect
        } else if v == 1 {
            Bsu::InnerShareable
        } else if v == 2 {
            Bsu::OuterShareable
        } else {
            Bsu::FullSystem
        }
    }

    /// Decodes a 2-bit pattern.
    pub fn new_with_raw_value(v: u8) -> (r: Bsu)
        requires
            v < 4,
        ensures
            r == Bsu::from_raw_spec(v as u32),
    {
        match v {
            0 => Bsu::NoEffect,
            1 => Bsu::InnerShareable,
            2 => Bsu::OuterShareable,
            _ => Bsu::FullSystem,
        }
    }

    /// The 2-bit pattern of this value.
    pub fn raw_value(&self) -> (r: u8)
        ensures
            r as u32 == self.raw_spec(),
    {
        match self {
            Bsu::NoEffect => 0,
            Bsu::InnerShareable => 1,
            Bsu::OuterShareable => 2,
            Bsu::FullSystem => 3,
        }
    }
}

/// Every 2-bit pattern decodes to exactly one `Bsu`, which encodes
/// back to that pattern; decoding cannot fail.
pub proof fn lemma_bsu_exhaustive(v: u32)
    requires
        v < 4,
    ensures
        Bsu::from_raw_spec(v).raw_spec() == v,
        forall|e: Bsu| #[trigger] Bsu::from_raw_spec(e.raw_spec()) == e,
{
}

/// HCR (*Hyp Configuration Register*)
#[derive(Clone, Copy, Debug, PartialEq, Eq, Structural)]
pub struct Hcr {
    raw: u32,
}

impl Hcr {
    /// The raw register value.
    pub closed spec fn raw_spec(self) -> u32 {
        self.raw
    }

    /// Wraps a raw value as it stands.
    pub fn new_with_raw_value(raw: u32) -> (r: Hcr)
        ensures
            r.raw_spec() == raw,
    {
        Hcr { raw }
    }

    /// The raw value.
    pub fn raw_value(&self) -> (r: u32)
        ensures
            r == self.raw_spec(),
    {
        self.raw
    }

    /// TCPAC - Traps EL1 accesses to the CPACR to Hyp mode
    pub fn tcpac(&self) -> (r: bool)
        ensures
            r == bit_of(self.raw_spec(), 31),
    {
        get_bit(self.raw, 31)
    }

    /// This value with `tcpac` set to `v`; every other bit is kept.
    pub fn with_tcpac(self, v: bool) -> (r: Hcr)
        ensures
            r.raw_spec() == with_bit_of(self.raw_spec(), 31, v),
    {
        Hcr { raw: put_bit(self.raw, 31, v) }
    }

    /// TRVM - Trap Reads of Memory controls
    pub fn trvm(&self) -> (r: bool)
        ensures
            r == bit_of(self.raw_spec(), 30),
    {
        get_bit(self.raw, 30)
    }

    /// This value with `trvm` set to `v`; every other bit is kept.
    pub fn with_trvm(self, v: bool) -> (r: Hcr)
        ensures
            r.raw_spec() == with_bit_of(self.raw_spec(), 30, v),
    {
        Hcr { raw: put_bit(self.raw, 30, v) }
    }

    /// HCD - HVC instruction disable
    pub fn hcd(&self) -> (r: bool)
        ensures
            r == bit_of(self.raw_spec(), 29),
    {
        get_bit(self.raw, 29)
    }

    /// This value with `hcd` set to `v`; every other bit is kept.
    pub fn with_hcd(self, v: bool) -> (r: Hcr)
        ensures
            r.raw_spec() == with_bit_of(self.raw_spec(), 29, v),
    {
        Hcr { raw: put_bit(self.raw, 29, v) }
    }

    /// TGE - Trap General Exceptions from EL0
    pub fn tge(&self) -> (r: bool)
        ensures
            r == bit_of(self.raw_spec(), 27),
    {
        get_bit(self.raw, 27)
    }

    /// This value with `tge` set to `v`; every other bit is kept.
    pub fn with_tge(self, v: bool) -> (r: Hcr)
        ensures
            r.raw_spec() == with_bit_of(self.raw_spec(), 27, v),
    {
        Hcr { raw: put_bit(self.raw, 27, v) }
    }

    /// TVM - Trap Memory controls
    pub fn tvm(&self) -> (r: bool)
        ensures
            r == bit_of(self.raw_spec(), 26),
    {
        get_bit(self.raw, 26)
    }

    /// This value with `tvm` set to `v`; every other bit is kept.
    pub fn with_tvm(self, v: bool) -> (r: Hcr)
        ensures
            r.raw_spec() == with_bit_of(self.raw_spec(), 26, v),
    {
        Hcr { raw: put_bit(self.raw, 26, v) }
    }

    /// TPU - Trap cache maintenance instructions that operate to the Point of Unification
    pub fn tpu(&self) -> (r: bool)
        ensures
            r == bit_of(self.raw_spec(), 24),
    {
        get_bit(self.raw, 24)
    }

    /// This value with `tpu` set to `v`; every other bit is kept.
    pub fn with_tpu(self, v: bool) -> (r: Hcr)
        ensures
            r.raw_spec() == with_bit_of(self.raw_spec(), 24, v),
    {
        Hcr { raw: put_bit(self.raw, 24, v) }
    }

    /// TPC - Trap data or unified cache maintenance instructions that operate to the Point of Coherency
    pub fn tpc(&self) -> (r: bool)
        ensures
            r == bit_of(self.raw_spec(), 23),
    {
        get_bit(self.raw, 23)
    }

    /// This value with `tpc` set to `v`; every other bit is kept.
    pub fn with_tpc(self, v: bool) -> (r: Hcr)
        ensures
            r.raw_spec() == with_bit_of(self.raw_spec(), 23, v),
    {
        Hcr { raw: put_bit(self.raw, 23, v) }
    }

    /// TSW - Trap data or unified cache maintenance instructions that operate by Set/Way
    pub fn tsw(&self) -> (r: bool)
        ensures
            r == bit_of(self.raw_spec(), 22),
    {
        get_bit(self.raw, 22)
    }

    /// This value with `tsw` set to `v`; every other bit is kept.
    pub fn with_tsw(self, v: bool) -> (r: Hcr)
        ensures
            r.raw_spec() == with_bit_of(self.raw_spec(), 22, v),
    {
        Hcr { raw: put_bit(self.raw, 22, v) }
    }

    /// TAC - Trap Auxiliary Control Registers
    pub fn tac(&self) -> (r: bool)
        ensures
            r == bit_of(self.raw_spec(), 21),
    {
        get_bit(self.raw, 21)
    }

    /// This value with `tac` set to `v`; every other bit is kept.
    pub fn with_tac(self, v: bool) -> (r: Hcr)
        ensures
            r.raw_spec() == with_bit_of(self.raw_spec(), 21, v),
    {
        Hcr { raw: put_bit(self.raw, 21, v) }
    }

    /// TIDCP - Trap IMPLEMENTATION DEFINED functionality
    pub fn tidcp(&self) -> (r: bool)
        ensures
            r == bit_of(self.raw_spec(), 20),
    {
        get_bit(self.raw, 20)
    }

    /// This value with `tidcp` set to `v`; every other bit is kept.
    pub fn with_tidcp(self, v: bool) -> (r: Hcr)
        ensures
            r.raw_spec() == with_bit_of(self.raw_spec(), 20, v),
    {
        Hcr { raw: put_bit(self.raw, 20, v) }
    }

    /// TID3 - Trap ID group 3
    pub fn tid3(&self) -> (r: bool)
        ensures
            r == bit_of(self.raw_spec(), 18),
    {
        get_bit(self.raw, 18)
    }

    /// This value with `tid3` set to `v`; every other bit is kept.
    pub fn with_tid3(self, v: bool) -> (r: Hcr)
        ensures
            r.raw_spec() == with_bit_of(self.raw_spec(), 18, v),
    {
        Hcr { raw: put_bit(self.raw, 18, v) }
    }

    /// TID2 - Trap ID group 2
    pub fn tid2(&self) -> (r: bool)
        ensures
            r == bit_of(self.raw_spec(), 17),
    {
        get_bit(self.raw, 17)
    }

    /// This value with `tid2` set to `v`; every other bit is kept.
    pub fn with_tid2(self, v: bool) -> (r: Hcr)
        ensures
            r.raw_spec() == with_bit_of(self.raw_spec(), 17, v),
    {
        Hcr { raw: put_bit(self.raw, 17, v) }
    }

    /// TID1 - Trap ID group 1
    pub fn tid1(&self) -> (r: bool)
        ensures
            r == bit_of(self.raw_spec(), 16),
    {
        get_bit(self.raw, 16)
    }

    /// This value with `tid1` set to `v`; every other bit is kept.
    pub fn with_tid1(self, v: bool) -> (r: Hcr)
        ensures
            r.raw_spec() == with_bit_of(self.raw_spec(), 16, v),
    {
        Hcr { raw: put_bit(self.raw, 16, v) }
    }

    /// TID0 - Trap ID group 0
    pub fn tid0(&self) -> (r: bool)
        ensures
            r == bit_of(self.raw_spec(), 15),
    {
        get_bit(self.raw, 15)
    }

    /// This value with `tid0` set to `v`; every other bit is kept.
    pub fn with_tid0(self, v: bool) -> (r: Hcr)
        ensures
            r.raw_spec() == with_bit_of(self.raw_spec(), 15, v),
    {
        Hcr { raw: put_bit(self.raw, 15, v) }
    }

    /// TWE - Traps EL0 and EL1 execution of WFE instructions to Hyp mode
    pub fn twe(&self) -> (r: bool)
        ensures
            r == bit_of(self.raw_spec(), 14),
    {
        get_bit(self.raw, 14)
    }

    /// This value with `twe` set to `v`; every other bit is kept.
    pub fn with_twe(self, v: bool) -> (r: Hcr)
        ensures
            r.raw_spec() == with_bit_of(self.raw_spec(), 14, v),
    {
        Hcr { raw: put_bit(self.raw, 14, v) }
    }

    /// TWI - Traps EL0 and EL1 execution of WFI instructions to Hyp mode
    pub fn twi(&self) -> (r: bool)
        ensures
            r == bit_of(self.raw_spec(), 13),
    {
        get_bit(self.raw, 13)
    }

    /// This value with `twi` set to `v`; every other bit is kept.
    pub fn with_twi(self, v: bool) -> (r: Hcr)
        ensures
            r.raw_spec() == with_bit_of(self.raw_spec(), 13, v),
    {
        Hcr { raw: put_bit(self.raw, 13, v) }
    }

    /// DC - Default Cacheability
    pub fn dc(&self) -> (r: bool)
        ensures
            r == bit_of(self.raw_spec(), 12),
    {
        get_bit(self.raw, 12)
    }

    /// This value with `dc` set to `v`; every other bit is kept.
    pub fn with_dc(self, v: bool) -> (r: Hcr)
        ensures
            r.raw_spec() == with_bit_of(self.raw_spec(), 12, v),
    {
        Hcr { raw: put_bit(self.raw, 12, v) }
    }

    /// BSU - Barrier Shareability upgrade.
    pub fn bsu(&self) -> (r: Bsu)
        ensures
            r == Bsu::from_raw_spec(field_of(self.raw_spec(), 10, 2)),
    {
        proof {
            lemma_low_masks();
        }
        Bsu::new_with_raw_value(get_field(self.raw, 10, 2) as u8)
    }

    /// This value with `bsu` set to `v`; every other bit is kept.
    pub fn with_bsu(self, v: Bsu) -> (r: Hcr)
        ensures
            r.raw_spec() == with_field_of(self.raw_spec(), 10, 2, v.raw_spec()),
    {
        Hcr { raw: put_field(self.raw, 10, 2, v.raw_value() as u32) }
    }

    /// FB - Force broadcast
    pub fn fb(&self) -> (r: bool)
        ensures
            r == bit_of(self.raw_spec(), 9),
    {
        get_bit(self.raw, 9)
    }

    /// This value with `fb` set to `v`; every other bit is kept.
    pub fn with_fb(self, v: bool) -> (r: Hcr)
        ensures
            r.raw_spec() == with_bit_of(self.raw_spec(), 9, v),
    {
        Hcr { raw: put_bit(self.raw, 9, v) }
    }

    /// VA - Virtual SError interrupt exception
    pub fn va(&self) -> (r: bool)
        ensures
            r == bit_of(self.raw_spec(), 8),
    {
        get_bit(self.raw, 8)
    }

    /// This value with `va` set to `v`; every other bit is kept.
    pub fn with_va(self, v: bool) -> (r: Hcr)
        ensures
            r.raw_spec() == with_bit_of(self.raw_spec(), 8, v),
    {
        Hcr { raw: put_bit(self.raw, 8, v) }
    }

    /// VI - Virtual IRQ exception
    pub fn vi(&self) -> (r: bool)
        ensures
            r == bit_of(self.raw_spec(), 7),
    {
        get_bit(self.raw, 7)
    }

    /// This value with `vi` set to `v`; every other bit is kept.
    pub fn with_vi(self, v: bool) -> (r: Hcr)
        ensures
            r.raw_spec() == with_bit_of(self.raw_spec(), 7, v),
    {
        Hcr { raw: put_bit(self.raw, 7, v) }
    }

    /// VF - Virtual FIQ exception
    pub fn vf(&self) -> (r: bool)
        ensures
            r == bit_of(self.raw_spec(), 6),
    {
        get_bit(self.raw, 6)
    }

    /// This value with `vf` set to `v`; every other bit is kept.
    pub fn with_vf(self, v: bool) -> (r: Hcr)
        ensures
            r.raw_spec() == with_bit_of(self.raw_spec(), 6, v),
    {
        Hcr { raw: put_bit(self.raw, 6, v) }
    }

    /// AMO - SError interrupt Mask Override
    pub fn amo(&self) -> (r: bool)
        ensures
            r == bit_of(self.raw_spec(), 5),
    {
        get_bit(self.raw, 5)
    }

    /// This value with `amo` set to `v`; every other bit is kept.
    pub fn with_amo(self, v: bool) -> (r: Hcr)
        ensures
            r.raw_spec() == with_bit_of(self.raw_spec(), 5, v),
    {
        Hcr { raw: put_bit(self.raw, 5, v) }
    }

    /// IMO - IRQ Mask Override
    pub fn imo(&self) -> (r: bool)
        ensures
            r == bit_of(self.raw_spec(), 4),
    {
        get_bit(self.raw, 4)
    }

    /// This value with `imo` set to `v`; every other bit is kept.
    pub fn with_imo(self, v: bool) -> (r: Hcr)
        ensures
            r.raw_spec() == with_bit_of(self.raw_spec(), 4, v),
    {
        Hcr { raw: put_bit(self.raw, 4, v) }
    }

    /// FMO - FIQ Mask Override
    pub fn fmo(&self) -> (r: bool)
        ensures
            r == bit_of(self.raw_spec(), 3),
    {
        get_bit(self.raw, 3)
    }

    /// This value with `fmo` set to `v`; every other bit is kept.
    pub fn with_fmo(self, v: bool) -> (r: Hcr)
        ensures
            r.raw_spec() == with_bit_of(self.raw_spec(), 3, v),
    {
        Hcr { raw: put_bit(self.raw, 3, v) }
    }

    /// SWIO - Set/Way Invalidation Override
    pub fn swio(&self) -> (r: bool)
        ensures
            r == bit_of(self.raw_spec(), 1),
    {
        get_bit(self.raw, 1)
    }

    /// This value with `swio` set to `v`; every other bit is kept.
    pub fn with_swio(self, v: bool) -> (r: Hcr)
        ensures
            r.raw_spec() == with_bit_of(self.raw_spec(), 1, v),
    {
        Hcr { raw: put_bit(self.raw, 1, v) }
    }

    /// VM - Virtualization enable
    pub fn vm(&self) -> (r: bool)
        ensures
            r == bit_of(self.raw_spec(), 0),
    {
        get_bit(self.raw, 0)
    }

    /// This value with `vm` set to `v`; every other bit is kept.
    pub fn with_vm(self, v: bool) -> (r: Hcr)
        ensures
            r.raw_spec() == with_bit_of(self.raw_spec(), 0, v),
    {
        Hcr { raw: put_bit(self.raw, 0, v) }
    }
}

} // verus!
