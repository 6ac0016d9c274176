//! HSR (*Hyp Syndrome Register*): why an exception was taken to Hyp mode,
//! and the instruction-specific syndrome that comes with each reason.

use vstd::prelude::*;

use crate::bits::{
    bit_of, field_of, get_bit, get_field, lemma_field_bound, lemma_low_masks, low_mask, put_field,
    with_field_of,
};

verus! {

/// The exception classes HSR.EC can report. The field is six bits wide and
/// not every pattern names a class.
#[derive(Clone, Copy, Debug, PartialEq, Eq, Structural)]
pub enum ExceptionClass {
    Unknown,
    TrappedWfiWfe,
    TrappedCp15McrMrc,
    TrappedCp15McrrMrrc,
    TrappedCp14McrMrc,
    TrappedLdcStc,
    TrappedFpu,
    TrappedVmrs,
    TrappedCp14McrrMrrc,
    IllegalAArch32Eret,
    Svc,
    Hvc,
    Smc,
    PrefetchAbortFromLower,
    PrefetchAbortFromCurrent,
    PcAlignment,
    DataAbortFromLower,
    DataAbortFromCurrent,
}

impl ExceptionClass {
    /// The 6-bit encoding of this class.
    pub open spec fn raw_spec(self) -> u32 {
        match self {
            ExceptionClass::Unknown => 0b000000,
            ExceptionClass::TrappedWfiWfe => 0b000001,
            ExceptionClass::TrappedCp15McrMrc => 0b000011,
            ExceptionClass::TrappedCp15McrrMrrc => 0b000100,
            ExceptionClass::TrappedCp14McrMrc => 0b000101,
            ExceptionClass::TrappedLdcStc => 0b000110,
            ExceptionClass::TrappedFpu => 0b000111,
            ExceptionClass::TrappedVmrs => 0b001000,
            ExceptionClass::TrappedCp14McrrMrrc => 0b001100,
            ExceptionClass::IllegalAArch32Eret => 0b001110,
            ExceptionClass::Svc => 0b010001,
            ExceptionClass::Hvc => 0b010010,
            ExceptionClass::Smc => 0b010011,
            ExceptionClass::PrefetchAbortFromLower => 0b100000,
            ExceptionClass::PrefetchAbortFromCurrent => 0b100001,
            ExceptionClass::PcAlignment => 0b100010,
            ExceptionClass::DataAbortFromLower => 0b100100,
            ExceptionClass::DataAbortFromCurrent => 0b100101,
        }
    }

    /// The class whose encoding is `v`, if `v` names one.
    pub open spec fn from_raw_spec(v: u32) -> Option<ExceptionClass> {
        if v == 0b000000 {
            Some(ExceptionClass::Unknown)
        } else if v == 0b000001 {
            Some(ExceptionClass::TrappedWfiWfe)
        } else if v == 0b000011 {
            Some(ExceptionClass::TrappedCp15McrMrc)
        } else if v == 0b000100 {
            Some(ExceptionClass::TrappedCp15McrrMrrc)
        } else if v == 0b000101 {
            Some(ExceptionClass::TrappedCp14McrMrc)
        } else if v == 0b000110 {
            Some(ExceptionClass::TrappedLdcStc)
        } else if v == 0b000111 {
            Some(ExceptionClass::TrappedFpu)
        } else if v == 0b001000 {
            Some(ExceptionClass::TrappedVmrs)
        } else if v == 0b001100 {
            Some(ExceptionClass::TrappedCp14McrrMrrc)
        } else if v == 0b001110 {
            Some(ExceptionClass::IllegalAArch32Eret)
        } else if v == 0b010001 {
            Some(ExceptionClass::Svc)
        } else if v == 0b010010 {
            Some(ExceptionClass::Hvc)
        } else if v == 0b010011 {
            Some(ExceptionClass::Smc)
        } else if v == 0b100000 {
            Some(ExceptionClass::PrefetchAbortFromLower)
        } else if v == 0b100001 {
            Some(ExceptionClass::PrefetchAbortFromCurrent)
        } else if v == 0b100010 {
            Some(ExceptionClass::PcAlignment)
        } else if v == 0b100100 {
            Some(ExceptionClass::DataAbortFromLower)
        } else if v == 0b100101 {
            Some(ExceptionClass::DataAbortFromCurrent)
        } else {
            None
        }
    }

    /// Decodes a 6-bit class pattern; a pattern that names no class is
    /// returned as the error, unchanged.
    pub fn new_with_raw_value(v: u8) -> (r: Result<ExceptionClass, u8>)
        requires
            v < 64,
        ensures
            ExceptionClass::from_raw_spec(v as u32) is Some ==> r == Ok::<_, u8>(
                ExceptionClass::from_raw_spec(v as u32)->Some_0,
            ),
            ExceptionClass::from_raw_spec(v as u32) is None ==> r == Err::<ExceptionClass, _>(v),
    {
        match v {
            0b000000 => Ok(ExceptionClass::Unknown),
            0b000001 => Ok(ExceptionClass::TrappedWfiWfe),
            0b000011 => Ok(ExceptionClass::TrappedCp15McrMrc),
            0b000100 => Ok(ExceptionClass::TrappedCp15McrrMrrc),
            0b000101 => Ok(ExceptionClass::TrappedCp14McrMrc),
            0b000110 => Ok(ExceptionClass::TrappedLdcStc),
            0b000111 => Ok(ExceptionClass::TrappedFpu),
            0b001000 => Ok(ExceptionClass::TrappedVmrs),
            0b001100 => Ok(ExceptionClass::TrappedCp14McrrMrrc),
            0b001110 => Ok(ExceptionClass::IllegalAArch32Eret),
            0b010001 => Ok(ExceptionClass::Svc),
            0b010010 => Ok(ExceptionClass::Hvc),
            0b010011 => Ok(ExceptionClass::Smc),
            0b100000 => Ok(ExceptionClass::PrefetchAbortFromLower),
            0b100001 => Ok(ExceptionClass::PrefetchAbortFromCurrent),
            0b100010 => Ok(ExceptionClass::PcAlignment),
            0b100100 => Ok(ExceptionClass::DataAbortFromLower),
            0b100101 => Ok(ExceptionClass::DataAbortFromCurrent),
            _ => Err(v),
        }
    }

    /// The 6-bit pattern of this class.
    pub fn raw_value(&self) -> (r: u8)
        ensures
            r as u32 == self.raw_spec(),
    {
        match self {
            ExceptionClass::Unknown => 0b000000,
            ExceptionClass::TrappedWfiWfe => 0b000001,
            ExceptionClass::TrappedCp15McrMrc => 0b000011,
            ExceptionClass::TrappedCp15McrrMrrc => 0b000100,
            ExceptionClass::TrappedCp14McrMrc => 0b000101,
            ExceptionClass::TrappedLdcStc => 0b000110,
            ExceptionClass::TrappedFpu => 0b000111,
            ExceptionClass::TrappedVmrs => 0b001000,
            ExceptionClass::TrappedCp14McrrMrrc => 0b001100,
            ExceptionClass::IllegalAArch32Eret => 0b001110,
            ExceptionClass::Svc => 0b010001,
            ExceptionClass::Hvc => 0b010010,
            ExceptionClass::Smc => 0b010011,
            ExceptionClass::PrefetchAbortFromLower => 0b100000,
            ExceptionClass::PrefetchAbortFromCurrent => 0b100001,
            ExceptionClass::PcAlignment => 0b100010,
            ExceptionClass::DataAbortFromLower => 0b100100,
            ExceptionClass::DataAbortFromCurrent => 0b100101,
        }
    }

    /// Whether an ISS of this class carries syndrome bits.
    pub open spec fn has_payload(self) -> bool {
        !(self == ExceptionClass::IllegalAArch32Eret || self == ExceptionClass::PcAlignment)
    }

    /// Interprets a 25-bit ISS according to this class.
    pub fn decode_iss(&self, iss: u32) -> (r: Iss)
        requires
            iss <= low_mask(25),
        ensures
            iss_class(r) == *self,
            self.has_payload() ==> iss_payload(r) == Some(iss),
            !self.has_payload() ==> iss_payload(r) is None,
    {
        match self {
            ExceptionClass::Unknown => Iss::Unknown(IssUnknown(iss)),
            ExceptionClass::TrappedWfiWfe => Iss::TrappedWfiWfe(IssTrappedWfiWfe::new_with_raw_value(iss)),
            ExceptionClass::TrappedCp15McrMrc => Iss::TrappedCp15McrMrc(IssTrappedMcrMrc::new_with_raw_value(iss)),
            ExceptionClass::TrappedCp15McrrMrrc => Iss::TrappedCp15McrrMrrc(IssTrappedMcrrMrrc::new_with_raw_value(iss)),
            ExceptionClass::TrappedCp14McrMrc => Iss::TrappedCp14McrMrc(IssTrappedMcrMrc::new_with_raw_value(iss)),
            ExceptionClass::TrappedLdcStc => Iss::TrappedLdcStc(IssTrappedLdcStc::new_with_raw_value(iss)),
            ExceptionClass::TrappedFpu => Iss::TrappedFpu(IssTrappedFpu::new_with_raw_value(iss)),
            ExceptionClass::TrappedVmrs => Iss::TrappedVmrs(IssTrappedVmrs(iss)),
            ExceptionClass::TrappedCp14McrrMrrc => Iss::TrappedCp14McrrMrrc(IssTrappedMcrrMrrc::new_with_raw_value(iss)),
            ExceptionClass::IllegalAArch32Eret => Iss::IllegalAArch32Eret,
            ExceptionClass::Svc => Iss::Svc(IssCall::new_with_raw_value(iss)),
            ExceptionClass::Hvc => Iss::Hvc(IssCall::new_with_raw_value(iss)),
            ExceptionClass::Smc => Iss::Smc(IssSmc(iss)),
            ExceptionClass::PrefetchAbortFromLower => Iss::PrefetchAbortFromLower(IssPrefetchAbort::new_with_raw_value(iss)),
            ExceptionClass::PrefetchAbortFromCurrent => Iss::PrefetchAbortFromCurrent(IssPrefetchAbort::new_with_raw_value(iss)),
            ExceptionClass::PcAlignment => Iss::PcAlignment,
            ExceptionClass::DataAbortFromLower => Iss::DataAbortFromLower(IssDataAbort::new_with_raw_value(iss)),
            ExceptionClass::DataAbortFromCurrent => Iss::DataAbortFromCurrent(IssDataAbort::new_with_raw_value(iss)),
        }
    }
}

/// A decoded ISS
///
/// ISS is a 25 bit field whose meaning varies depending on the value of the EC field.
#[derive(Clone, Copy, Debug)]
pub enum Iss {
    Unknown(IssUnknown),
    TrappedWfiWfe(IssTrappedWfiWfe),
    TrappedCp15McrMrc(IssTrappedMcrMrc),
    TrappedCp15McrrMrrc(IssTrappedMcrrMrrc),
    TrappedCp14McrMrc(IssTrappedMcrMrc),
    TrappedLdcStc(IssTrappedLdcStc),
    TrappedFpu(IssTrappedFpu),
    TrappedVmrs(IssTrappedVmrs),
    TrappedCp14McrrMrrc(IssTrappedMcrrMrrc),
    IllegalAArch32Eret,
    Svc(IssCall),
    Hvc(IssCall),
    Smc(IssSmc),
    PrefetchAbortFromLower(IssPrefetchAbort),
    PrefetchAbortFromCurrent(IssPrefetchAbort),
    PcAlignment,
    DataAbortFromLower(IssDataAbort),
    DataAbortFromCurrent(IssDataAbort),
}

/// The class an ISS was decoded for.
pub open spec fn iss_class(i: Iss) -> ExceptionClass {
    match i {
        Iss::Unknown(_) => ExceptionClass::Unknown,
        Iss::TrappedWfiWfe(_) => ExceptionClass::TrappedWfiWfe,
        Iss::TrappedCp15McrMrc(_) => ExceptionClass::TrappedCp15McrMrc,
        Iss::TrappedCp15McrrMrrc(_) => ExceptionClass::TrappedCp15McrrMrrc,
        Iss::TrappedCp14McrMrc(_) => ExceptionClass::TrappedCp14McrMrc,
        Iss::TrappedLdcStc(_) => ExceptionClass::TrappedLdcStc,
        Iss::TrappedFpu(_) => ExceptionClass::TrappedFpu,
        Iss::TrappedVmrs(_) => ExceptionClass::TrappedVmrs,
        Iss::TrappedCp14McrrMrrc(_) => ExceptionClass::TrappedCp14McrrMrrc,
        Iss::IllegalAArch32Eret => ExceptionClass::IllegalAArch32Eret,
        Iss::Svc(_) => ExceptionClass::Svc,
        Iss::Hvc(_) => ExceptionClass::Hvc,
        Iss::Smc(_) => ExceptionClass::Smc,
        Iss::PrefetchAbortFromLower(_) => ExceptionClass::PrefetchAbortFromLower,
        Iss::PrefetchAbortFromCurrent(_) => ExceptionClass::PrefetchAbortFromCurrent,
        Iss::PcAlignment => ExceptionClass::PcAlignment,
        Iss::DataAbortFromLower(_) => ExceptionClass::DataAbortFromLower,
        Iss::DataAbortFromCurrent(_) => ExceptionClass::DataAbortFromCurrent,
    }
}

/// The syndrome bits an ISS carries, if its class has any.
pub open spec fn iss_payload(i: Iss) -> Option<u32> {
    match i {
        Iss::Unknown(x) => Some(x.0),
        Iss::TrappedWfiWfe(x) => Some(x.raw_spec()),
        Iss::TrappedCp15McrMrc(x) => Some(x.raw_spec()),
        Iss::TrappedCp15McrrMrrc(x) => Some(x.raw_spec()),
        Iss::TrappedCp14McrMrc(x) => Some(x.raw_spec()),
        Iss::TrappedLdcStc(x) => Some(x.raw_spec()),
        Iss::TrappedFpu(x) => Some(x.raw_spec()),
        Iss::TrappedVmrs(x) => Some(x.0),
        Iss::TrappedCp14McrrMrrc(x) => Some(x.raw_spec()),
        Iss::IllegalAArch32Eret => None,
        Iss::Svc(x) => Some(x.raw_spec()),
        Iss::Hvc(x) => Some(x.raw_spec()),
        Iss::Smc(x) => Some(x.0),
        Iss::PrefetchAbortFromLower(x) => Some(x.raw_spec()),
        Iss::PrefetchAbortFromCurrent(x) => Some(x.raw_spec()),
        Iss::PcAlignment => None,
        Iss::DataAbortFromLower(x) => Some(x.raw_spec()),
        Iss::DataAbortFromCurrent(x) => Some(x.raw_spec()),
    }
}

/// The ISS field when EC = ExceptionClass::Unknown: every bit is reserved.
#[derive(Clone, Copy, Debug, PartialEq, Eq, Structural)]
pub struct IssUnknown(pub u32);

/// The ISS field when EC = ExceptionClass::TrappedVmrs: every bit is reserved.
#[derive(Clone, Copy, Debug, PartialEq, Eq, Structural)]
pub struct IssTrappedVmrs(pub u32);

/// The ISS field when EC = ExceptionClass::Smc: every bit is reserved.
#[derive(Clone, Copy, Debug, PartialEq, Eq, Structural)]
pub struct IssSmc(pub u32);

/// The ISS field when EC = ExceptionClass::TrappedWfiWfe
#[derive(Clone, Copy, Debug, PartialEq, Eq, Structural)]
pub struct IssTrappedWfiWfe {
    raw: u32,
}

impl IssTrappedWfiWfe {
    /// The raw ISS value.
    pub closed spec fn raw_spec(self) -> u32 {
        self.raw
    }

    /// Wraps a raw value as it stands.
    pub fn new_with_raw_value(raw: u32) -> (r: IssTrappedWfiWfe)
        requires
            raw <= low_mask(25),
        ensures
            r.raw_spec() == raw,
    {
        IssTrappedWfiWfe { raw }
    }

    /// The raw value.
    pub fn raw_value(&self) -> (r: u32)
        ensures
            r == self.raw_spec(),
    {
        self.raw
    }

    /// Condition code valid
    pub fn cv(&self) -> (r: bool)
        ensures
            r == bit_of(self.raw_spec(), 24),
    {
        get_bit(self.raw, 24)
    }

    /// Condition code
    pub fn cc(&self) -> (r: u8)
        ensures
            r as u32 == field_of(self.raw_spec(), 20, 4),
    {
        proof {
            lemma_low_masks();
        }
        get_field(self.raw, 20, 4) as u8
    }

    /// Trapped Instruction is WFE
    pub fn ti(&self) -> (r: bool)
        ensures
            r == bit_of(self.raw_spec(), 0),
    {
        get_bit(self.raw, 0)
    }
}

/// The ISS field when EC = ExceptionClass::TrappedCp15McrMrc or ExceptionClass::TrappedCp14McrMrc
#[derive(Clone, Copy, Debug, PartialEq, Eq, Structural)]
pub struct IssTrappedMcrMrc {
    raw: u32,
}

impl IssTrappedMcrMrc {
    /// The raw ISS value.
    pub closed spec fn raw_spec(self) -> u32 {
        self.raw
    }

    /// Wraps a raw value as it stands.
    pub fn new_with_raw_value(raw: u32) -> (r: IssTrappedMcrMrc)
        requires
            raw <= low_mask(25),
        ensures
            r.raw_spec() == raw,
    {
        IssTrappedMcrMrc { raw }
    }

    /// The raw value.
    pub fn raw_value(&self) -> (r: u32)
        ensures
            r == self.raw_spec(),
    {
        self.raw
    }

    /// Condition code valid
    pub fn cv(&self) -> (r: bool)
        ensures
            r == bit_of(self.raw_spec(), 24),
    {
        get_bit(self.raw, 24)
    }

    /// Condition code
    pub fn cc(&self) -> (r: u8)
        ensures
            r as u32 == field_of(self.raw_spec(), 20, 4),
    {
        proof {
            lemma_low_masks();
        }
        get_field(self.raw, 20, 4) as u8
    }

    /// OPC2 value from instruction
    pub fn opc2(&self) -> (r: u8)
        ensures
            r as u32 == field_of(self.raw_spec(), 17, 3),
    {
        proof {
            lemma_low_masks();
        }
        get_field(self.raw, 17, 3) as u8
    }

    /// OPC1 value from instruction
    pub fn opc1(&self) -> (r: u8)
        ensures
            r as u32 == field_of(self.raw_spec(), 14, 3),
    {
        proof {
            lemma_low_masks();
        }
        get_field(self.raw, 14, 3) as u8
    }

    /// CRn value from instruction
    pub fn crn(&self) -> (r: u8)
        ensures
            r as u32 == field_of(self.raw_spec(), 10, 4),
    {
        proof {
            lemma_low_masks();
        }
        get_field(self.raw, 10, 4) as u8
    }

    /// Rt value from instruction
    pub fn rt(&self) -> (r: u8)
        ensures
            r as u32 == field_of(self.raw_spec(), 5, 4),
    {
        proof {
            lemma_low_masks();
        }
        get_field(self.raw, 5, 4) as u8
    }

    /// CRm value from instruction
    pub fn crm(&self) -> (r: u8)
        ensures
            r as u32 == field_of(self.raw_spec(), 1, 4),
    {
        proof {
            lemma_low_masks();
        }
        get_field(self.raw, 1, 4) as u8
    }

    /// Direction (true = read, false = write)
    pub fn is_read(&self) -> (r: bool)
        ensures
            r == bit_of(self.raw_spec(), 0),
    {
        get_bit(self.raw, 0)
    }
}

/// The ISS field when EC = ExceptionClass::TrappedCp15McrrMrrc or ExceptionClass::TrappedCp14McrrMrrc
#[derive(Clone, Copy, Debug, PartialEq, Eq, Structural)]
pub struct IssTrappedMcrrMrrc {
    raw: u32,
}

impl IssTrappedMcrrMrrc {
    /// The raw ISS value.
    pub closed spec fn raw_spec(self) -> u32 {
        self.raw
    }

    /// Wraps a raw value as it stands.
    pub fn new_with_raw_value(raw: u32) -> (r: IssTrappedMcrrMrrc)
        requires
            raw <= low_mask(25),
        ensures
            r.raw_spec() == raw,
    {
        IssTrappedMcrrMrrc { raw }
    }

    /// The raw value.
    pub fn raw_value(&self) -> (r: u32)
        ensures
            r == self.raw_spec(),
    {
        self.raw
    }

    /// Condition code valid
    pub fn cv(&self) -> (r: bool)
        ensures
            r == bit_of(self.raw_spec(), 24),
    {
        get_bit(self.raw, 24)
    }

    /// Condition code
    pub fn cc(&self) -> (r: u8)
        ensures
            r as u32 == field_of(self.raw_spec(), 20, 4),
    {
        proof {
            lemma_low_masks();
        }
        get_field(self.raw, 20, 4) as u8
    }

    /// OPC2 value from instruction
    pub fn opc2(&self) -> (r: u8)
        ensures
            r as u32 == field_of(self.raw_spec(), 16, 4),
    {
        proof {
            lemma_low_masks();
        }
        get_field(self.raw, 16, 4) as u8
    }

    /// Rt2 value from instruction
    pub fn rt2(&self) -> (r: u8)
        ensures
            r as u32 == field_of(self.raw_spec(), 10, 4),
    {
        proof {
            lemma_low_masks();
        }
        get_field(self.raw, 10, 4) as u8
    }

    /// Rt value from instruction
    pub fn rt(&self) -> (r: u8)
        ensures
            r as u32 == field_of(self.raw_spec(), 5, 4),
    {
        proof {
            lemma_low_masks();
        }
        get_field(self.raw, 5, 4) as u8
    }

    /// CRm value from instruction
    pub fn crm(&self) -> (r: u8)
        ensures
            r as u32 == field_of(self.raw_spec(), 1, 4),
    {
        proof {
            lemma_low_masks();
        }
        get_field(self.raw, 1, 4) as u8
    }

    /// Direction (true = read, false = write)
    pub fn is_read(&self) -> (r: bool)
        ensures
            r == bit_of(self.raw_spec(), 0),
    {
        get_bit(self.raw, 0)
    }
}

/// The ISS field when EC = ExceptionClass::TrappedLdcStc
#[derive(Clone, Copy, Debug, PartialEq, Eq, Structural)]
pub struct IssTrappedLdcStc {
    raw: u32,
}

impl IssTrappedLdcStc {
    /// The raw ISS value.
    pub closed spec fn raw_spec(self) -> u32 {
        self.raw
    }

    /// Wraps a raw value as it stands.
    pub fn new_with_raw_value(raw: u32) -> (r: IssTrappedLdcStc)
        requires
            raw <= low_mask(25),
        ensures
            r.raw_spec() == raw,
    {
        IssTrappedLdcStc { raw }
    }

    /// The raw value.
    pub fn raw_value(&self) -> (r: u32)
        ensures
            r == self.raw_spec(),
    {
        self.raw
    }

    /// Condition code valid
    pub fn cv(&self) -> (r: bool)
        ensures
            r == bit_of(self.raw_spec(), 24),
    {
        get_bit(self.raw, 24)
    }

    /// Condition code
    pub fn cc(&self) -> (r: u8)
        ensures
            r as u32 == field_of(self.raw_spec(), 20, 4),
    {
        proof {
            lemma_low_masks();
        }
        get_field(self.raw, 20, 4) as u8
    }

    /// The immediate value from the instruction
    pub fn imm8(&self) -> (r: u8)
        ensures
            r as u32 == field_of(self.raw_spec(), 12, 8),
    {
        proof {
            lemma_low_masks();
        }
        get_field(self.raw, 12, 8) as u8
    }

    /// Rn value from instruction
    pub fn rn(&self) -> (r: u8)
        ensures
            r as u32 == field_of(self.raw_spec(), 5, 4),
    {
        proof {
            lemma_low_masks();
        }
        get_field(self.raw, 5, 4) as u8
    }

    /// Whether offset is added (true) or subtracted (false)
    pub fn offset(&self) -> (r: bool)
        ensures
            r == bit_of(self.raw_spec(), 4),
    {
        get_bit(self.raw, 4)
    }

    /// Addressing Mode
    pub fn am(&self) -> (r: u8)
        ensures
            r as u32 == field_of(self.raw_spec(), 1, 3),
    {
        proof {
            lemma_low_masks();
        }
        get_field(self.raw, 1, 3) as u8
    }

    /// Direction (true = read, false = write)
    pub fn is_read(&self) -> (r: bool)
        ensures
            r == bit_of(self.raw_spec(), 0),
    {
        get_bit(self.raw, 0)
    }
}

/// The ISS field when EC = ExceptionClass::TrappedFpu
#[derive(Clone, Copy, Debug, PartialEq, Eq, Structural)]
pub struct IssTrappedFpu {
    raw: u32,
}

impl IssTrappedFpu {
    /// The raw ISS value.
    pub closed spec fn raw_spec(self) -> u32 {
        self.raw
    }

    /// Wraps a raw value as it stands.
    pub fn new_with_raw_value(raw: u32) -> (r: IssTrappedFpu)
        requires
            raw <= low_mask(25),
        ensures
            r.raw_spec() == raw,
    {
        IssTrappedFpu { raw }
    }

    /// The raw value.
    pub fn raw_value(&self) -> (r: u32)
        ensures
            r == self.raw_spec(),
    {
        self.raw
    }

    /// Condition code valid
    pub fn cv(&self) -> (r: bool)
        ensures
            r == bit_of(self.raw_spec(), 24),
    {
        get_bit(self.raw, 24)
    }

    /// Condition code
    pub fn cc(&self) -> (r: u8)
        ensures
            r as u32 == field_of(self.raw_spec(), 20, 4),
    {
        proof {
            lemma_low_masks();
        }
        get_field(self.raw, 20, 4) as u8
    }

    /// Trapped Advanced SIMD
    pub fn ta(&self) -> (r: bool)
        ensures
            r == bit_of(self.raw_spec(), 5),
    {
        get_bit(self.raw, 5)
    }

    /// CoProc Bits
    pub fn coproc(&self) -> (r: u8)
        ensures
            r as u32 == field_of(self.raw_spec(), 0, 4),
    {
        proof {
            lemma_low_masks();
        }
        get_field(self.raw, 0, 4) as u8
    }
}

/// The ISS field when EC = ExceptionClass::Svc or ExceptionClass::Hvc
#[derive(Clone, Copy, Debug, PartialEq, Eq, Structural)]
pub struct IssCall {
    raw: u32,
}

impl IssCall {
    /// The raw ISS value.
    pub closed spec fn raw_spec(self) -> u32 {
        self.raw
    }

    /// Wraps a raw value as it stands.
    pub fn new_with_raw_value(raw: u32) -> (r: IssCall)
        requires
            raw <= low_mask(25),
        ensures
            r.raw_spec() == raw,
    {
        IssCall { raw }
    }

    /// The raw value.
    pub fn raw_value(&self) -> (r: u32)
        ensures
            r == self.raw_spec(),
    {
        self.raw
    }

    /// Immediate value from instruction
    pub fn imm16(&self) -> (r: u16)
        ensures
            r as u32 == field_of(self.raw_spec(), 0, 16),
    {
        proof {
            lemma_low_masks();
        }
        get_field(self.raw, 0, 16) as u16
    }
}

/// The ISS field when EC = ExceptionClass::PrefetchAbortFromLower or ExceptionClass::PrefetchAbortFromCurrent
#[derive(Clone, Copy, Debug, PartialEq, Eq, Structural)]
pub struct IssPrefetchAbort {
    raw: u32,
}

impl IssPrefetchAbort {
    /// The raw ISS value.
    pub closed spec fn raw_spec(self) -> u32 {
        self.raw
    }

    /// Wraps a raw value as it stands.
    pub fn new_with_raw_value(raw: u32) -> (r: IssPrefetchAbort)
        requires
            raw <= low_mask(25),
        ensures
            r.raw_spec() == raw,
    {
        IssPrefetchAbort { raw }
    }

    /// The raw value.
    pub fn raw_value(&self) -> (r: u32)
        ensures
            r == self.raw_spec(),
    {
        self.raw
    }

    /// FAR not Valid, for a Synchronous External abort.
    pub fn fnv(&self) -> (r: bool)
        ensures
            r == bit_of(self.raw_spec(), 10),
    {
        get_bit(self.raw, 10)
    }

    /// External Abort Type (external = true)
    pub fn ea(&self) -> (r: bool)
        ensures
            r == bit_of(self.raw_spec(), 9),
    {
        get_bit(self.raw, 9)
    }

    /// Instruction Fault Status Code
    pub fn ifsc(&self) -> (r: u8)
        ensures
            r as u32 == field_of(self.raw_spec(), 0, 6),
    {
        proof {
            lemma_low_masks();
        }
        get_field(self.raw, 0, 6) as u8
    }
}

/// The ISS field when EC = ExceptionClass::DataAbortFromLower or ExceptionClass::DataAbortFromCurrent
#[derive(Clone, Copy, Debug, PartialEq, Eq, Structural)]
pub struct IssDataAbort {
    raw: u32,
}

impl IssDataAbort {
    /// The raw ISS value.
    pub closed spec fn raw_spec(self) -> u32 {
        self.raw
    }

    /// Wraps a raw value as it stands.
    pub fn new_with_raw_value(raw: u32) -> (r: IssDataAbort)
        requires
            raw <= low_mask(25),
        ensures
            r.raw_spec() == raw,
    {
        IssDataAbort { raw }
    }

    /// The raw value.
    pub fn raw_value(&self) -> (r: u32)
        ensures
            r == self.raw_spec(),
    {
        self.raw
    }

    /// Instruction Syndrome Valid
    pub fn isv(&self) -> (r: bool)
        ensures
            r == bit_of(self.raw_spec(), 24),
    {
        get_bit(self.raw, 24)
    }

    /// Syndrome Access Size
    pub fn sas(&self) -> (r: u8)
        ensures
            r as u32 == field_of(self.raw_spec(), 22, 2),
    {
        proof {
            lemma_low_masks();
        }
        get_field(self.raw, 22, 2) as u8
    }

    /// Syndrome Sign Extend
    pub fn sae(&self) -> (r: bool)
        ensures
            r == bit_of(self.raw_spec(), 21),
    {
        get_bit(self.raw, 21)
    }

    /// Syndrome Register transfer
    pub fn srt(&self) -> (r: u8)
        ensures
            r as u32 == field_of(self.raw_spec(), 16, 4),
    {
        proof {
            lemma_low_masks();
        }
        get_field(self.raw, 16, 4) as u8
    }

    /// Acquire/Release
    pub fn ar(&self) -> (r: bool)
        ensures
            r == bit_of(self.raw_spec(), 14),
    {
        get_bit(self.raw, 14)
    }

    /// FAR not Valid
    pub fn fnv(&self) -> (r: bool)
        ensures
            r == bit_of(self.raw_spec(), 10),
    {
        get_bit(self.raw, 10)
    }

    /// External Abort Type (external = true)
    pub fn ea(&self) -> (r: bool)
        ensures
            r == bit_of(self.raw_spec(), 9),
    {
        get_bit(self.raw, 9)
    }

    /// Cache maintenance
    pub fn cm(&self) -> (r: bool)
        ensures
            r == bit_of(self.raw_spec(), 8),
    {
        get_bit(self.raw, 8)
    }

    /// Write not Read
    pub fn wnr(&self) -> (r: bool)
        ensures
            r == bit_of(self.raw_spec(), 6),
    {
        get_bit(self.raw, 6)
    }

    /// Data Fault Status Code
    pub fn dfsc(&self) -> (r: u8)
        ensures
            r as u32 == field_of(self.raw_spec(), 0, 6),
    {
        proof {
            lemma_low_masks();
        }
        get_field(self.raw, 0, 6) as u8
    }
}

/// Instruction length bit of HSR.
#[derive(Clone, Copy, Debug, PartialEq, Eq, Structural)]
pub enum InstructionLength {
    SixteenBit,
    ThirtyTwoBit,
}

impl InstructionLength {
    /// The 1-bit encoding of this length.
    pub open spec fn raw_spec(self) -> u32 {
        match self {
            InstructionLength::SixteenBit => 0,
            InstructionLength::ThirtyTwoBit => 1,
        }
    }

    /// The length whose encoding is `v` (both 1-bit patterns name one).
    pub open spec fn from_raw_spec(v: u32) -> InstructionLength {
        if v == 0 {
            InstructionLength::SixteenBit
        } else {
            InstructionLength::ThirtyTwoBit
        }
    }

    /// Decodes a 1-bit length pattern.
    pub fn new_with_raw_value(v: u8) -> (r: InstructionLength)
        requires
            v < 2,
        ensures
            r == InstructionLength::from_raw_spec(v as u32),
    {
        if v == 0 {
            InstructionLength::SixteenBit
        } else {
            InstructionLength::ThirtyTwoBit
        }
    }

    /// The 1-bit pattern of this length.
    pub fn raw_value(&self) -> (r: u8)
        ensures
            r as u32 == self.raw_spec(),
    {
        match self {
            InstructionLength::SixteenBit => 0,
            InstructionLength::ThirtyTwoBit => 1,
        }
    }
}

/// Every pattern of the instruction-length bit names exactly one length, and
/// every length encodes to the pattern it was decoded from.
pub proof fn lemma_instruction_length_exhaustive(v: u32)
    requires
        v < 2,
    ensures
        InstructionLength::from_raw_spec(v).raw_spec() == v,
        forall|l: InstructionLength| #[trigger] InstructionLength::from_raw_spec(l.raw_spec()) == l,
{
}

/// Every exception class encodes to a pattern that decodes back to it, so
/// decoding fails exactly on the patterns that name no class.
pub proof fn lemma_exception_class_round_trip(c: ExceptionClass)
    ensures
        ExceptionClass::from_raw_spec(c.raw_spec()) == Some(c),
        c.raw_spec() < 64,
{
}

/// HSR (*Hyp Syndrome Register*)
#[derive(Clone, Copy, Debug, PartialEq, Eq, Structural)]
pub struct Hsr {
    raw: u32,
}

impl Hsr {
    /// The raw register value.
    pub closed spec fn raw_spec(self) -> u32 {
        self.raw
    }

    /// Wraps a raw value as it stands.
    pub fn new_with_raw_value(raw: u32) -> (r: Hsr)
        ensures
            r.raw_spec() == raw,
    {
        Hsr { raw }
    }

    /// The raw value.
    pub fn raw_value(&self) -> (r: u32)
        ensures
            r == self.raw_spec(),
    {
        self.raw
    }

    /// Exception Class: the reason for the exception that this register
    /// holds information about, or the raw pattern when it names no class.
    pub fn ec(&self) -> (r: Result<ExceptionClass, u8>)
        ensures
            ExceptionClass::from_raw_spec(field_of(self.raw_spec(), 26, 6)) is Some ==> r == Ok::<
                _,
                u8,
            >(ExceptionClass::from_raw_spec(field_of(self.raw_spec(), 26, 6))->Some_0),
            ExceptionClass::from_raw_spec(field_of(self.raw_spec(), 26, 6)) is None ==> r == Err::<
                ExceptionClass,
                _,
            >(field_of(self.raw_spec(), 26, 6) as u8),
    {
        proof {
            lemma_low_masks();
        }
        ExceptionClass::new_with_raw_value(get_field(self.raw, 26, 6) as u8)
    }

    /// This value with the exception class set to `v`; every other bit is kept.
    pub fn with_ec(self, v: ExceptionClass) -> (r: Hsr)
        ensures
            r.raw_spec() == with_field_of(self.raw_spec(), 26, 6, v.raw_spec()),
    {
        Hsr { raw: put_field(self.raw, 26, 6, v.raw_value() as u32) }
    }

    /// Instruction length bit: the size of the instruction that was trapped.
    pub fn il(&self) -> (r: InstructionLength)
        ensures
            r == InstructionLength::from_raw_spec(field_of(self.raw_spec(), 25, 1)),
    {
        proof {
            lemma_low_masks();
        }
        InstructionLength::new_with_raw_value(get_field(self.raw, 25, 1) as u8)
    }

    /// This value with `il` set to `v`; every other bit is kept.
    pub fn with_il(self, v: InstructionLength) -> (r: Hsr)
        ensures
            r.raw_spec() == with_field_of(self.raw_spec(), 25, 1, v.raw_spec()),
    {
        Hsr { raw: put_field(self.raw, 25, 1, v.raw_value() as u32) }
    }

    /// Instruction Specific Syndrome.
    pub fn iss(&self) -> (r: u32)
        ensures
            r as u32 == field_of(self.raw_spec(), 0, 25),
    {
        proof {
            lemma_low_masks();
        }
        get_field(self.raw, 0, 25)
    }

    /// This value with `iss` set to `v`; every other bit is kept.
    pub fn with_iss(self, v: u32) -> (r: Hsr)
        requires
            (v as u32) <= low_mask(25),
        ensures
            r.raw_spec() == with_field_of(self.raw_spec(), 0, 25, v as u32),
    {
        Hsr { raw: put_field(self.raw, 0, 25, v as u32) }
    }

    /// Get the ISS value from the HSR, decoded according to its exception
    /// class; `None` when the class field names no class.
    pub fn get_iss(&self) -> (r: Option<Iss>)
        ensures
            ExceptionClass::from_raw_spec(field_of(self.raw_spec(), 26, 6)) is None ==> r is None,
            ExceptionClass::from_raw_spec(field_of(self.raw_spec(), 26, 6)) is Some ==> r is Some
                && iss_class(r->Some_0) == ExceptionClass::from_raw_spec(
                field_of(self.raw_spec(), 26, 6),
            )->Some_0 && (iss_class(r->Some_0).has_payload() ==> iss_payload(r->Some_0) == Some(
                field_of(self.raw_spec(), 0, 25),
            )),
    {
        proof {
            lemma_field_bound(self.raw, 0, 25);
        }
        if let Ok(ec) = self.ec() {
            Some(ec.decode_iss(self.iss()))
        } else {
            None
        }
    }
}

} // verus!
