//! DACR (*Domain Access Control Register*): the access policy of each of the
//! sixteen memory domains.

use vstd::prelude::*;

use crate::bits::{field_of, get_field, lemma_low_masks, put_field, with_field_of};

verus! {

/// Domain Access Permissions
#[derive(Clone, Copy, Debug, PartialEq, Eq, Structural)]
pub enum DomainAccess {
    /// No access. Any access to the domain generates a Domain fault.
    NoAccess,
    /// Client. Accesses are checked against the permission bits in the translation tables.
    Client,
    /// Reserved
    Reserved,
    /// Manager. Accesses are not checked against the permission bits in the translation tables.
    Manager,
}

impl DomainAccess {
    /// The 2-bit encoding of this value.
    pub open spec fn raw_spec(self) -> u32 {
        match self {
            DomainAccess::NoAccess => 0,
            DomainAccess::Client => 1,
            DomainAccess::Reserved => 2,
            DomainAccess::Manager => 3,
        }
    }

    /// The value whose encoding is `v` (every 2-bit pattern names one).
    pub open spec fn from_raw_spec(v: u32) -> DomainAccess {
        if v == 0 {
            DomainAccess::NoAccess
        } else if v == 1 {
            DomainAccess::Client
        } else if v == 2 {
            DomainAccess::Reserved
        } else {
            DomainAccess::Manager
        }
    }

    /// Decodes a 2-bit pattern.
    pub fn new_with_raw_value(v: u8) -> (r: DomainAccess)
        requires
            v < 4,
        ensures
            r == DomainAccess::from_raw_spec(v as u32),
    {
        match v {
            0 => DomainAccess::NoAccess,
            1 => DomainAccess::Client,
            2 => DomainAccess::Reserved,
            _ => DomainAccess::Manager,
        }
    }

    /// The 2-bit pattern of this value.
    pub fn raw_value(&self) -> (r: u8)
        ensures
            r as u32 == self.raw_spec(),
    {
        match self {
            DomainAccess::NoAccess => 0,
            DomainAccess::Client => 1,
            DomainAccess::Reserved => 2,
            DomainAccess::Manager => 3,
        }
    }
}

/// Every 2-bit pattern decodes to exactly one `DomainAccess`, which encodes
/// back to that pattern; decoding cannot fail.
pub proof fn lemma_domain_access_exhaustive(v: u32)
    requires
        v < 4,
    ensures
        DomainAccess::from_raw_spec(v).raw_spec() == v,
        forall|e: DomainAccess| #[trigger] DomainAccess::from_raw_spec(e.raw_spec()) == e,
{
}

/// DACR (*Domain Access Control Register*)
#[derive(Clone, Copy, Debug, PartialEq, Eq, Structural)]
pub struct Dacr {
    raw: u32,
}

impl Dacr {
    /// The raw register value.
    pub closed spec fn raw_spec(self) -> u32 {
        self.raw
    }

    /// Wraps a raw value as it stands.
    pub fn new_with_raw_value(raw: u32) -> (r: Dacr)
        ensures
            r.raw_spec() == raw,
    {
        Dacr { raw }
    }

    /// The raw value.
    pub fn raw_value(&self) -> (r: u32)
        ensures
            r == self.raw_spec(),
    {
        self.raw
    }

    /// Access permissions of domain 15
    pub fn d15(&self) -> (r: DomainAccess)
        ensures
            r == DomainAccess::from_raw_spec(field_of(self.raw_spec(), 30, 2)),
    {
        proof {
            lemma_low_masks();
        }
        DomainAccess::new_with_raw_value(get_field(self.raw, 30, 2) as u8)
    }

    /// This value with `d15` set to `v`; every other bit is kept.
    pub fn with_d15(self, v: DomainAccess) -> (r: Dacr)
        ensures
            r.raw_spec() == with_field_of(self.raw_spec(), 30, 2, v.raw_spec()),
    {
        Dacr { raw: put_field(self.raw, 30, 2, v.raw_value() as u32) }
    }

    /// Access permissions of domain 14
    pub fn d14(&self) -> (r: DomainAccess)
        ensures
            r == DomainAccess::from_raw_spec(field_of(self.raw_spec(), 28, 2)),
    {
        proof {
            lemma_low_masks();
        }
        DomainAccess::new_with_raw_value(get_field(self.raw, 28, 2) as u8)
    }

    /// This value with `d14` set to `v`; every other bit is kept.
    pub fn with_d14(self, v: DomainAccess) -> (r: Dacr)
        ensures
            r.raw_spec() == with_field_of(self.raw_spec(), 28, 2, v.raw_spec()),
    {
        Dacr { raw: put_field(self.raw, 28, 2, v.raw_value() as u32) }
    }

    /// Access permissions of domain 13
    pub fn d13(&self) -> (r: DomainAccess)
        ensures
            r == DomainAccess::from_raw_spec(field_of(self.raw_spec(), 26, 2)),
    {
        proof {
            lemma_low_masks();
        }
        DomainAccess::new_with_raw_value(get_field(self.raw, 26, 2) as u8)
    }

    /// This value with `d13` set to `v`; every other bit is kept.
    pub fn with_d13(self, v: DomainAccess) -> (r: Dacr)
        ensures
            r.raw_spec() == with_field_of(self.raw_spec(), 26, 2, v.raw_spec()),
    {
        Dacr { raw: put_field(self.raw, 26, 2, v.raw_value() as u32) }
    }

    /// Access permissions of domain 12
    pub fn d12(&self) -> (r: DomainAccess)
        ensures
            r == DomainAccess::from_raw_spec(field_of(self.raw_spec(), 24, 2)),
    {
        proof {
            lemma_low_masks();
        }
        DomainAccess::new_with_raw_value(get_field(self.raw, 24, 2) as u8)
    }

    /// This value with `d12` set to `v`; every other bit is kept.
    pub fn with_d12(self, v: DomainAccess) -> (r: Dacr)
        ensures
            r.raw_spec() == with_field_of(self.raw_spec(), 24, 2, v.raw_spec()),
    {
        Dacr { raw: put_field(self.raw, 24, 2, v.raw_value() as u32) }
    }

    /// Access permissions of domain 11
    pub fn d11(&self) -> (r: DomainAccess)
        ensures
            r == DomainAccess::from_raw_spec(field_of(self.raw_spec(), 22, 2)),
    {
        proof {
            lemma_low_masks();
        }
        DomainAccess::new_with_raw_value(get_field(self.raw, 22, 2) as u8)
    }

    /// This value with `d11` set to `v`; every other bit is kept.
    pub fn with_d11(self, v: DomainAccess) -> (r: Dacr)
        ensures
            r.raw_spec() == with_field_of(self.raw_spec(), 22, 2, v.raw_spec()),
    {
        Dacr { raw: put_field(self.raw, 22, 2, v.raw_value() as u32) }
    }

    /// Access permissions of domain 10
    pub fn d10(&self) -> (r: DomainAccess)
        ensures
            r == DomainAccess::from_raw_spec(field_of(self.raw_spec(), 20, 2)),
    {
        proof {
            lemma_low_masks();
        }
        DomainAccess::new_with_raw_value(get_field(self.raw, 20, 2) as u8)
    }

    /// This value with `d10` set to `v`; every other bit is kept.
    pub fn with_d10(self, v: DomainAccess) -> (r: Dacr)
        ensures
            r.raw_spec() == with_field_of(self.raw_spec(), 20, 2, v.raw_spec()),
    {
        Dacr { raw: put_field(self.raw, 20, 2, v.raw_value() as u32) }
    }

    /// Access permissions of domain 9
    pub fn d9(&self) -> (r: DomainAccess)
        ensures
            r == DomainAccess::from_raw_spec(field_of(self.raw_spec(), 18, 2)),
    {
        proof {
            lemma_low_masks();
        }
        DomainAccess::new_with_raw_value(get_field(self.raw, 18, 2) as u8)
    }

    /// This value with `d9` set to `v`; every other bit is kept.
    pub fn with_d9(self, v: DomainAccess) -> (r: Dacr)
        ensures
            r.raw_spec() == with_field_of(self.raw_spec(), 18, 2, v.raw_spec()),
    {
        Dacr { raw: put_field(self.raw, 18, 2, v.raw_value() as u32) }
    }

    /// Access permissions of domain 8
    pub fn d8(&self) -> (r: DomainAccess)
        ensures
            r == DomainAccess::from_raw_spec(field_of(self.raw_spec(), 16, 2)),
    {
        proof {
            lemma_low_masks();
        }
        DomainAccess::new_with_raw_value(get_field(self.raw, 16, 2) as u8)
    }

    /// This value with `d8` set to `v`; every other bit is kept.
    pub fn with_d8(self, v: DomainAccess) -> (r: Dacr)
        ensures
            r.raw_spec() == with_field_of(self.raw_spec(), 16, 2, v.raw_spec()),
    {
        Dacr { raw: put_field(self.raw, 16, 2, v.raw_value() as u32) }
    }

    /// Access permissions of domain 7
    pub fn d7(&self) -> (r: DomainAccess)
        ensures
            r == DomainAccess::from_raw_spec(field_of(self.raw_spec(), 14, 2)),
    {
        proof {
            lemma_low_masks();
        }
        DomainAccess::new_with_raw_value(get_field(self.raw, 14, 2) as u8)
    }

    /// This value with `d7` set to `v`; every other bit is kept.
    pub fn with_d7(self, v: DomainAccess) -> (r: Dacr)
        ensures
            r.raw_spec() == with_field_of(self.raw_spec(), 14, 2, v.raw_spec()),
    {
        Dacr { raw: put_field(self.raw, 14, 2, v.raw_value() as u32) }
    }

    /// Access permissions of domain 6
    pub fn d6(&self) -> (r: DomainAccess)
        ensures
            r == DomainAccess::from_raw_spec(field_of(self.raw_spec(), 12, 2)),
    {
        proof {
            lemma_low_masks();
        }
        DomainAccess::new_with_raw_value(get_field(self.raw, 12, 2) as u8)
    }

    /// This value with `d6` set to `v`; every other bit is kept.
    pub fn with_d6(self, v: DomainAccess) -> (r: Dacr)
        ensures
            r.raw_spec() == with_field_of(self.raw_spec(), 12, 2, v.raw_spec()),
    {
        Dacr { raw: put_field(self.raw, 12, 2, v.raw_value() as u32) }
    }

    /// Access permissions of domain 5
    pub fn d5(&self) -> (r: DomainAccess)
        ensures
            r == DomainAccess::from_raw_spec(field_of(self.raw_spec(), 10, 2)),
    {
        proof {
            lemma_low_masks();
        }
        DomainAccess::new_with_raw_value(get_field(self.raw, 10, 2) as u8)
    }

    /// This value with `d5` set to `v`; every other bit is kept.
    pub fn with_d5(self, v: DomainAccess) -> (r: Dacr)
        ensures
            r.raw_spec() == with_field_of(self.raw_spec(), 10, 2, v.raw_spec()),
    {
        Dacr { raw: put_field(self.raw, 10, 2, v.raw_value() as u32) }
    }

    /// Access permissions of domain 4
    pub fn d4(&self) -> (r: DomainAccess)
        ensures
            r == DomainAccess::from_raw_spec(field_of(self.raw_spec(), 8, 2)),
    {
        proof {
            lemma_low_masks();
        }
        DomainAccess::new_with_raw_value(get_field(self.raw, 8, 2) as u8)
    }

    /// This value with `d4` set to `v`; every other bit is kept.
    pub fn with_d4(self, v: DomainAccess) -> (r: Dacr)
        ensures
            r.raw_spec() == with_field_of(self.raw_spec(), 8, 2, v.raw_spec()),
    {
        Dacr { raw: put_field(self.raw, 8, 2, v.raw_value() as u32) }
    }

    /// Access permissions of domain 3
    pub fn d3(&self) -> (r: DomainAccess)
        ensures
            r == DomainAccess::from_raw_spec(field_of(self.raw_spec(), 6, 2)),
    {
        proof {
            lemma_low_masks();
        }
        DomainAccess::new_with_raw_value(get_field(self.raw, 6, 2) as u8)
    }

    /// This value with `d3` set to `v`; every other bit is kept.
    pub fn with_d3(self, v: DomainAccess) -> (r: Dacr)
        ensures
            r.raw_spec() == with_field_of(self.raw_spec(), 6, 2, v.raw_spec()),
    {
        Dacr { raw: put_field(self.raw, 6, 2, v.raw_value() as u32) }
    }

    /// Access permissions of domain 2
    pub fn d2(&self) -> (r: DomainAccess)
        ensures
            r == DomainAccess::from_raw_spec(field_of(self.raw_spec(), 4, 2)),
    {
        proof {
            lemma_low_masks();
        }
        DomainAccess::new_with_raw_value(get_field(self.raw, 4, 2) as u8)
    }

    /// This value with `d2` set to `v`; every other bit is kept.
    pub fn with_d2(self, v: DomainAccess) -> (r: Dacr)
        ensures
            r.raw_spec() == with_field_of(self.raw_spec(), 4, 2, v.raw_spec()),
    {
        Dacr { raw: put_field(self.raw, 4, 2, v.raw_value() as u32) }
    }

    /// Access permissions of domain 1
    pub fn d1(&self) -> (r: DomainAccess)
        ensures
            r == DomainAccess::from_raw_spec(field_of(self.raw_spec(), 2, 2)),
    {
        proof {
            lemma_low_masks();
        }
        DomainAccess::new_with_raw_value(get_field(self.raw, 2, 2) as u8)
    }

    /// This value with `d1` set to `v`; every other bit is kept.
    pub fn with_d1(self, v: DomainAccess) -> (r: Dacr)
        ensures
            r.raw_spec() == with_field_of(self.raw_spec(), 2, 2, v.raw_spec()),
    {
        Dacr { raw: put_field(self.raw, 2, 2, v.raw_value() as u32) }
    }

    /// Access permissions of domain 0
    pub fn d0(&self) -> (r: DomainAccess)
        ensures
            r == DomainAccess::from_raw_spec(field_of(self.raw_spec(), 0, 2)),
    {
        proof {
            lemma_low_masks();
        }
        DomainAccess::new_with_raw_value(get_field(self.raw, 0, 2) as u8)
    }

    /// This value with `d0` set to `v`; every other bit is kept.
    pub fn with_d0(self, v: DomainAccess) -> (r: Dacr)
        ensures
            r.raw_spec() == with_field_of(self.raw_spec(), 0, 2, v.raw_spec()),
    {
        Dacr { raw: put_field(self.raw, 0, 2, v.raw_value() as u32) }
    }

    /// The computing step of a read-modify-write of DACR: applies `f` to
    /// the value that was read and gives back the value to write. The read
    /// and the write are hardware accesses, made by the caller; the sequence
    /// is not atomic.
    pub fn modify<F: FnOnce(Dacr) -> Dacr>(value: Dacr, f: F) -> (r: Dacr)
        requires
            f.requires((value,)),
        ensures
            f.ensures((value,), r),
    {
        f(value)
    }
}

} // verus!
