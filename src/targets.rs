//! Classification of Arm target strings (such as `armv7r-none-eabi`) into
//! instruction set, architecture version, profile and ABI, and the cargo
//! configuration lines that let code be compiled conditionally on them.

use vstd::prelude::*;

verus! {

/// Whether `s` begins with `p`.
pub open spec fn has_prefix(s: Seq<char>, p: Seq<char>) -> bool {
    p.len() <= s.len() && s.subrange(0, p.len() as int) == p
}

/// Whether `s` ends with `p`.
pub open spec fn has_suffix(s: Seq<char>, p: Seq<char>) -> bool {
    p.len() <= s.len() && s.subrange(s.len() - p.len(), s.len() as int) == p
}

/// Whether `s` begins with `p`.
pub fn starts_with(s: &str, p: &str) -> (r: bool)
    ensures
        r == has_prefix(s@, p@),
{
    let n = s.unicode_len();
    let m = p.unicode_len();
    if m > n {
        return false;
    }
    let mut i: usize = 0;
    while i < m
        invariant
            n == s@.len(),
            m == p@.len(),
            m <= n,
            i <= m,
            forall|j: int| 0 <= j < i ==> s@[j] == p@[j],
        decreases m - i,
    {
        if s.get_char(i) != p.get_char(i) {
            assert(s@.subrange(0, m as int)[i as int] != p@[i as int]);
            return false;
        }
        i = i + 1;
    }
    assert(s@.subrange(0, m as int) =~= p@);
    true
}

/// Whether `s` ends with `p`.
pub fn ends_with(s: &str, p: &str) -> (r: bool)
    ensures
        r == has_suffix(s@, p@),
{
    let n = s.unicode_len();
    let m = p.unicode_len();
    if m > n {
        return false;
    }
    let off = n - m;
    let mut i: usize = 0;
    while i < m
        invariant
            n == s@.len(),
            m == p@.len(),
            off == n - m,
            i <= m,
            forall|j: int| 0 <= j < i ==> s@[off + j] == p@[j],
        decreases m - i,
    {
        if s.get_char(off + i) != p.get_char(i) {
            assert(s@.subrange(off as int, n as int)[i as int] != p@[i as int]);
            return false;
        }
        i = i + 1;
    }
    assert(s@.subrange(off as int, n as int) =~= p@);
    true
}

/// `name` between double quotes.
pub open spec fn quoted(name: Seq<char>) -> Seq<char> {
    "\""@ + name + "\""@
}

/// The names, each between double quotes, separated by `", "`.
pub open spec fn quoted_list(names: Seq<Seq<char>>) -> Seq<char>
    decreases names.len(),
{
    if names.len() == 0 {
        Seq::empty()
    } else if names.len() == 1 {
        quoted(names[0])
    } else {
        quoted_list(names.drop_last()) + ", "@ + quoted(names.last())
    }
}

/// Joins names into a comma-separated list of quoted values, as cargo's
/// `check-cfg` expects.
pub fn join_quoted(names: &Vec<&str>) -> (r: String)
    ensures
        r@ == quoted_list(names@.map_values(|n: &str| n@)),
{
    let ghost views = names@.map_values(|n: &str| n@);
    let mut out = String::new();
    let mut i: usize = 0;
    while i < names.len()
        invariant
            i <= names@.len(),
            views == names@.map_values(|n: &str| n@),
            out@ == quoted_list(views.take(i as int)),
        decreases names.len() - i,
    {
        let ghost before = out@;
        if i > 0 {
            out.append(", ");
        }
        out.append("\"");
        out.append(names[i]);
        out.append("\"");
        proof {
            let t = views.take(i + 1);
            assert(t.drop_last() =~= views.take(i as int));
            assert(t.last() == names@[i as int]@);
            if i == 0 {
                assert(views.take(0) =~= Seq::<Seq<char>>::empty());
                assert(out@ =~= quoted(names@[0]@));
            } else {
                assert(out@ =~= before + ", "@ + quoted(names@[i as int]@));
            }
        }
        i = i + 1;
    }
    assert(views.take(names@.len() as int) =~= views);
    out
}

/// The Arm Instruction Set
#[derive(Clone, Copy, Debug, PartialEq, Eq, Structural)]
pub enum Isa {
    /// A64 instructions are executed by Arm processors in Aarch64 mode
    A64,
    /// A32 instructions are executed by Arm processors in Aarch32 Arm mode
    A32,
    /// T32 instructions are executed by Arm processors in Aarch32 Thumb mode
    T32,
}

/// The instruction set a target string names.
pub open spec fn isa_of(t: Seq<char>) -> Option<Isa> {
    if has_prefix(t, "arm"@) {
        Some(Isa::A32)
    } else if has_prefix(t, "thumb"@) {
        Some(Isa::T32)
    } else if has_prefix(t, "aarch64"@) {
        Some(Isa::A64)
    } else {
        None
    }
}

/// The configuration value of an instruction set.
pub open spec fn isa_name(i: Isa) -> Seq<char> {
    match i {
        Isa::A64 => "a64"@,
        Isa::A32 => "a32"@,
        Isa::T32 => "t32"@,
    }
}

/// Every instruction set, in the order the configuration lists them.
pub open spec fn all_isas() -> Seq<Isa> {
    seq![Isa::A64, Isa::A32, Isa::T32]
}

impl Isa {
    /// Decode a target string
    pub fn get(target: &str) -> (r: Option<Isa>)
        ensures
            r == isa_of(target@),
    {
        if starts_with(target, "arm") {
            Some(Isa::A32)
        } else if starts_with(target, "thumb") {
            Some(Isa::T32)
        } else if starts_with(target, "aarch64") {
            Some(Isa::A64)
        } else {
            None
        }
    }

    /// The configuration value of this instruction set.
    pub fn name(&self) -> (r: &'static str)
        ensures
            r@ == isa_name(*self),
    {
        match self {
            Isa::A64 => "a64",
            Isa::A32 => "a32",
            Isa::T32 => "t32",
        }
    }

    /// Get a comma-separated list of values, suitable for cfg-check
    pub fn values() -> (r: String)
        ensures
            r@ == quoted_list(all_isas().map_values(|i: Isa| isa_name(i))),
    {
        let names = vec![Isa::A64.name(), Isa::A32.name(), Isa::T32.name()];
        assert(names@.map_values(|n: &str| n@) =~= all_isas().map_values(|i: Isa| isa_name(i)));
        join_quoted(&names)
    }
}

/// The Arm Architecture
///
/// As defined by a particular revision of the Arm Architecture Reference Manual (ARM).
#[derive(Clone, Copy, Debug, PartialEq, Eq, Structural)]
pub enum Arch {
    /// Arm Architecture version 4, with Thumb support (e.g. ARM7TDMI)
    Armv4T,
    /// Arm Architecture version 5, with Thumb support and Enhanced DSP Instructions (e.g. ARM926EJ-S)
    Armv5TE,
    /// Arm Architecture version 6 (e.g. ARM1176JZF-S)
    Armv6,
    /// Armv6-M (e.g. Cortex-M0+)
    Armv6M,
    /// Armv7-M (e.g. Cortex-M3)
    Armv7M,
    /// Armv7E-M (e.g. Cortex-M4)
    Armv7EM,
    /// Armv8-M Baseline (e.g. Cortex-M23)
    Armv8MBase,
    /// Armv8-M with Mainline extensions (e.g. Cortex-M33)
    Armv8MMain,
    /// Armv7-R (e.g. Cortex-R5)
    Armv7R,
    /// Armv8-R (e.g. Cortex-R52)
    Armv8R,
    /// Armv7-A (e.g. Cortex-A8)
    Armv7A,
    /// Armv8-A (e.g. Cortex-A53)
    Armv8A,
}

/// The architecture version a target string names. A bare `arm-` (or
/// `armv6-`, `thumbv6-`) target is taken to be Armv6.
pub open spec fn arch_of(t: Seq<char>) -> Option<Arch> {
    if has_prefix(t, "armv4t-"@) || has_prefix(t, "thumbv4t-"@) {
        Some(Arch::Armv4T)
    } else if has_prefix(t, "armv5te-"@) || has_prefix(t, "thumbv5te-"@) {
        Some(Arch::Armv5TE)
    } else if has_prefix(t, "thumbv6m-"@) {
        Some(Arch::Armv6M)
    } else if has_prefix(t, "thumbv7m-"@) {
        Some(Arch::Armv7M)
    } else if has_prefix(t, "thumbv7em-"@) {
        Some(Arch::Armv7EM)
    } else if has_prefix(t, "thumbv8m.base-"@) {
        Some(Arch::Armv8MBase)
    } else if has_prefix(t, "thumbv8m.main-"@) {
        Some(Arch::Armv8MMain)
    } else if has_prefix(t, "armv7r-"@) || has_prefix(t, "armebv7r-"@) || has_prefix(
        t,
        "thumbv7r-"@,
    ) {
        Some(Arch::Armv7R)
    } else if has_prefix(t, "armv8r-"@) || has_prefix(t, "thumbv8r-"@) {
        Some(Arch::Armv8R)
    } else if has_prefix(t, "armv7a-"@) || has_prefix(t, "thumbv7a-"@) {
        Some(Arch::Armv7A)
    } else if has_prefix(t, "aarch64-"@) || has_prefix(t, "aarch64be-"@) {
        Some(Arch::Armv8A)
    } else if has_prefix(t, "arm-"@) || has_prefix(t, "armv6-"@) || has_prefix(t, "thumbv6-"@) {
        Some(Arch::Armv6)
    } else {
        None
    }
}

/// The profile an architecture version belongs to.
pub open spec fn profile_of_arch(a: Arch) -> Profile {
    match a {
        Arch::Armv6M | Arch::Armv7M | Arch::Armv7EM | Arch::Armv8MBase | Arch::Armv8MMain => {
            Profile::M
        },
        Arch::Armv4T | Arch::Armv5TE | Arch::Armv6 => Profile::Legacy,
        Arch::Armv7R | Arch::Armv8R => Profile::R,
        Arch::Armv7A | Arch::Armv8A => Profile::A,
    }
}

/// The configuration value of an architecture version.
pub open spec fn arch_name(a: Arch) -> Seq<char> {
    match a {
        Arch::Armv4T => "v4t"@,
        Arch::Armv5TE => "v5te"@,
        Arch::Armv6 => "v6"@,
        Arch::Armv6M => "v6-m"@,
        Arch::Armv7M => "v7-m"@,
        Arch::Armv7EM => "v7e-m"@,
        Arch::Armv7R => "v7-r"@,
        Arch::Armv8R => "v8-r"@,
        Arch::Armv8MBase => "v8-m.base"@,
        Arch::Armv8MMain => "v8-m.main"@,
        Arch::Armv7A => "v7-a"@,
        Arch::Armv8A => "v8-a"@,
    }
}

/// Every architecture version, in the order the configuration lists them.
pub open spec fn all_archs() -> Seq<Arch> {
    seq![
        Arch::Armv4T,
        Arch::Armv5TE,
        Arch::Armv6,
        Arch::Armv6M,
        Arch::Armv7M,
        Arch::Armv7EM,
        Arch::Armv8MBase,
        Arch::Armv8MMain,
        Arch::Armv7R,
        Arch::Armv8R,
        Arch::Armv7A,
        Arch::Armv8A,
    ]
}

impl Arch {
    /// Decode a target string
    pub fn get(target: &str) -> (r: Option<Arch>)
        ensures
            r == arch_of(target@),
    {
        if starts_with(target, "armv4t-") || starts_with(target, "thumbv4t-") {
            Some(Arch::Armv4T)
        } else if starts_with(target, "armv5te-") || starts_with(target, "thumbv5te-") {
            Some(Arch::Armv5TE)
        } else if starts_with(target, "thumbv6m-") {
            Some(Arch::Armv6M)
        } else if starts_with(target, "thumbv7m-") {
            Some(Arch::Armv7M)
        } else if starts_with(target, "thumbv7em-") {
            Some(Arch::Armv7EM)
        } else if starts_with(target, "thumbv8m.base-") {
            Some(Arch::Armv8MBase)
        } else if starts_with(target, "thumbv8m.main-") {
            Some(Arch::Armv8MMain)
        } else if starts_with(target, "armv7r-") || starts_with(target, "armebv7r-")
            || starts_with(target, "thumbv7r-") {
            Some(Arch::Armv7R)
        } else if starts_with(target, "armv8r-") || starts_with(target, "thumbv8r-") {
            Some(Arch::Armv8R)
        } else if starts_with(target, "armv7a-") || starts_with(target, "thumbv7a-") {
            Some(Arch::Armv7A)
        } else if starts_with(target, "aarch64-") || starts_with(target, "aarch64be-") {
            Some(Arch::Armv8A)
        } else if starts_with(target, "arm-") || starts_with(target, "armv6-") || starts_with(
            target,
            "thumbv6-",
        ) {
            Some(Arch::Armv6)
        } else {
            None
        }
    }

    /// Get the Arm Architecture Profile
    pub fn profile(&self) -> (r: Profile)
        ensures
            r == profile_of_arch(*self),
    {
        match self {
            Arch::Armv6M | Arch::Armv7M | Arch::Armv7EM | Arch::Armv8MBase | Arch::Armv8MMain => {
                Profile::M
            },
            Arch::Armv4T | Arch::Armv5TE | Arch::Armv6 => Profile::Legacy,
            Arch::Armv7R | Arch::Armv8R => Profile::R,
            Arch::Armv7A | Arch::Armv8A => Profile::A,
        }
    }

    /// The configuration value of this architecture version.
    pub fn name(&self) -> (r: &'static str)
        ensures
            r@ == arch_name(*self),
    {
        match self {
            Arch::Armv4T => "v4t",
            Arch::Armv5TE => "v5te",
            Arch::Armv6 => "v6",
            Arch::Armv6M => "v6-m",
            Arch::Armv7M => "v7-m",
            Arch::Armv7EM => "v7e-m",
            Arch::Armv7R => "v7-r",
            Arch::Armv8R => "v8-r",
            Arch::Armv8MBase => "v8-m.base",
            Arch::Armv8MMain => "v8-m.main",
            Arch::Armv7A => "v7-a",
            Arch::Armv8A => "v8-a",
        }
    }

    /// Get a comma-separated list of values, suitable for cfg-check
    pub fn values() -> (r: String)
        ensures
            r@ == quoted_list(all_archs().map_values(|a: Arch| arch_name(a))),
    {
        let names = vec![
            Arch::Armv4T.name(),
            Arch::Armv5TE.name(),
            Arch::Armv6.name(),
            Arch::Armv6M.name(),
            Arch::Armv7M.name(),
            Arch::Armv7EM.name(),
            Arch::Armv8MBase.name(),
            Arch::Armv8MMain.name(),
            Arch::Armv7R.name(),
            Arch::Armv8R.name(),
            Arch::Armv7A.name(),
            Arch::Armv8A.name(),
        ];
        assert(names@.map_values(|n: &str| n@) =~= all_archs().map_values(|a: Arch| arch_name(a)));
        join_quoted(&names)
    }
}

/// The Arm Architecture Profile.
#[derive(Clone, Copy, Debug, PartialEq, Eq, Structural)]
pub enum Profile {
    /// Microcontrollers
    M,
    /// Real-Time
    R,
    /// Applications
    A,
    /// Legacy
    Legacy,
}

/// The profile a target string names: that of its architecture version.
pub open spec fn profile_of(t: Seq<char>) -> Option<Profile> {
    match arch_of(t) {
        Some(a) => Some(profile_of_arch(a)),
        None => None,
    }
}

/// The configuration value of a profile.
pub open spec fn profile_name(p: Profile) -> Seq<char> {
    match p {
        Profile::M => "m"@,
        Profile::R => "r"@,
        Profile::A => "a"@,
        Profile::Legacy => "legacy"@,
    }
}

/// Every profile, in the order the configuration lists them.
pub open spec fn all_profiles() -> Seq<Profile> {
    seq![Profile::A, Profile::R, Profile::M, Profile::Legacy]
}

impl Profile {
    /// Decode a target string
    pub fn get(target: &str) -> (r: Option<Profile>)
        ensures
            r == profile_of(target@),
    {
        let arch = Arch::get(target)?;
        Some(arch.profile())
    }

    /// The configuration value of this profile.
    pub fn name(&self) -> (r: &'static str)
        ensures
            r@ == profile_name(*self),
    {
        match self {
            Profile::M => "m",
            Profile::R => "r",
            Profile::A => "a",
            Profile::Legacy => "legacy",
        }
    }

    /// Get a comma-separated list of values, suitable for cfg-check
    pub fn values() -> (r: String)
        ensures
            r@ == quoted_list(all_profiles().map_values(|p: Profile| profile_name(p))),
    {
        let names = vec![Profile::A.name(), Profile::R.name(), Profile::M.name(), Profile::Legacy.name()];
        assert(names@.map_values(|n: &str| n@) =~= all_profiles().map_values(
            |p: Profile| profile_name(p),
        ));
        join_quoted(&names)
    }
}

/// The ABI
#[derive(Clone, Copy, Debug, PartialEq, Eq, Structural)]
pub enum Abi {
    /// Arm Embedded ABI
    Eabi,
    /// Arm Embedded ABI with Hard Float
    EabiHf,
}

/// The ABI a target string names; only targets with a known architecture
/// version have one.
pub open spec fn abi_of(t: Seq<char>) -> Option<Abi> {
    if arch_of(t) is None {
        None
    } else if has_suffix(t, "eabi"@) {
        Some(Abi::Eabi)
    } else if has_suffix(t, "eabihf"@) {
        Some(Abi::EabiHf)
    } else {
        None
    }
}

/// The configuration value of an ABI.
pub open spec fn abi_name(a: Abi) -> Seq<char> {
    match a {
        Abi::Eabi => "eabi"@,
        Abi::EabiHf => "eabihf"@,
    }
}

/// Every ABI, in the order the configuration lists them.
pub open spec fn all_abis() -> Seq<Abi> {
    seq![Abi::Eabi, Abi::EabiHf]
}

impl Abi {
    /// Decode a target string
    pub fn get(target: &str) -> (r: Option<Abi>)
        ensures
            r == abi_of(target@),
    {
        let _ = Arch::get(target)?;
        if ends_with(target, "eabi") {
            Some(Abi::Eabi)
        } else if ends_with(target, "eabihf") {
            Some(Abi::EabiHf)
        } else {
            None
        }
    }

    /// The configuration value of this ABI.
    pub fn name(&self) -> (r: &'static str)
        ensures
            r@ == abi_name(*self),
    {
        match self {
            Abi::Eabi => "eabi",
            Abi::EabiHf => "eabihf",
        }
    }

    /// Get a comma-separated list of values, suitable for cfg-check
    pub fn values() -> (r: String)
        ensures
            r@ == quoted_list(all_abis().map_values(|a: Abi| abi_name(a))),
    {
        let names = vec![Abi::Eabi.name(), Abi::EabiHf.name()];
        assert(names@.map_values(|n: &str| n@) =~= all_abis().map_values(|a: Abi| abi_name(a)));
        join_quoted(&names)
    }
}

/// What a target string says about the Arm platform.
pub struct TargetInfo {
    isa: Option<Isa>,
    arch: Option<Arch>,
    profile: Option<Profile>,
    abi: Option<Abi>,
}

impl TargetInfo {
    pub closed spec fn isa_spec(&self) -> Option<Isa> {
        self.isa
    }

    pub closed spec fn arch_spec(&self) -> Option<Arch> {
        self.arch
    }

    pub closed spec fn profile_spec(&self) -> Option<Profile> {
        self.profile
    }

    pub closed spec fn abi_spec(&self) -> Option<Abi> {
        self.abi
    }

    /// Get the Arm Instruction Set Architecture of the target
    pub fn isa(&self) -> (r: Option<Isa>)
        ensures
            r == self.isa_spec(),
    {
        self.isa
    }

    /// Get the Arm Architecture version of the target
    pub fn arch(&self) -> (r: Option<Arch>)
        ensures
            r == self.arch_spec(),
    {
        self.arch
    }

    /// Get the Arm Architecture Profile of the target
    pub fn profile(&self) -> (r: Option<Profile>)
        ensures
            r == self.profile_spec(),
    {
        self.profile
    }

    /// Get the ABI of the target
    pub fn abi(&self) -> (r: Option<Abi>)
        ensures
            r == self.abi_spec(),
    {
        self.abi
    }
}

impl Default for TargetInfo {
    fn default() -> (r: TargetInfo)
        ensures
            r.isa_spec() is None,
            r.arch_spec() is None,
            r.profile_spec() is None,
            r.abi_spec() is None,
    {
        TargetInfo { isa: None, arch: None, profile: None, abi: None }
    }
}

/// Classifies a target string.
pub fn process_target(target: &str) -> (r: TargetInfo)
    ensures
        r.isa_spec() == isa_of(target@),
        r.arch_spec() == arch_of(target@),
        r.profile_spec() == profile_of(target@),
        r.abi_spec() == abi_of(target@),
{
    let mut target_info = TargetInfo::default();
    if let Some(isa) = Isa::get(target) {
        target_info.isa = Some(isa);
    }
    if let Some(arch) = Arch::get(target) {
        target_info.arch = Some(arch);
    }
    if let Some(profile) = Profile::get(target) {
        target_info.profile = Some(profile);
    }
    if let Some(abi) = Abi::get(target) {
        target_info.abi = Some(abi);
    }
    target_info
}

/// The cargo line that sets configuration `key` to `value`.
pub open spec fn cfg_line(key: Seq<char>, value: Seq<char>) -> Seq<char> {
    "cargo:rustc-cfg="@ + key + "=\""@ + value + "\""@
}

/// The cargo line that declares the values configuration `key` may take.
pub open spec fn check_cfg_line(key: Seq<char>, values: Seq<char>) -> Seq<char> {
    "cargo:rustc-check-cfg=cfg("@ + key + ", values("@ + values + "))"@
}

/// The cargo lines for one configuration key: its value when the target has
/// one, then the list of values it may take.
pub open spec fn key_lines(key: Seq<char>, value: Option<Seq<char>>, values: Seq<char>) -> Seq<
    Seq<char>,
> {
    match value {
        Some(v) => seq![cfg_line(key, v), check_cfg_line(key, values)],
        None => seq![check_cfg_line(key, values)],
    }
}

/// The name of an optional value.
pub open spec fn name_of<T>(v: Option<T>, name: spec_fn(T) -> Seq<char>) -> Option<Seq<char>> {
    match v {
        Some(x) => Some(name(x)),
        None => None,
    }
}

/// All cargo lines for a classified target, key by key: instruction set,
/// architecture, profile, ABI.
pub open spec fn cargo_lines_spec(info: TargetInfo) -> Seq<Seq<char>> {
    key_lines(
        "arm_isa"@,
        name_of(info.isa_spec(), |i: Isa| isa_name(i)),
        quoted_list(all_isas().map_values(|i: Isa| isa_name(i))),
    ) + key_lines(
        "arm_architecture"@,
        name_of(info.arch_spec(), |a: Arch| arch_name(a)),
        quoted_list(all_archs().map_values(|a: Arch| arch_name(a))),
    ) + key_lines(
        "arm_profile"@,
        name_of(info.profile_spec(), |p: Profile| profile_name(p)),
        quoted_list(all_profiles().map_values(|p: Profile| profile_name(p))),
    ) + key_lines(
        "arm_abi"@,
        name_of(info.abi_spec(), |a: Abi| abi_name(a)),
        quoted_list(all_abis().map_values(|a: Abi| abi_name(a))),
    )
}

/// Appends the cargo lines of one configuration key to `out`.
fn push_key_lines(out: &mut Vec<String>, key: &str, value: Option<&str>, values: String)
    ensures
        final(out)@.map_values(|l: String| l@) == old(out)@.map_values(|l: String| l@) + key_lines(
            key@,
            match value {
                Some(v) => Some(v@),
                None => None,
            },
            values@,
        ),
{
    let ghost before = out@.map_values(|l: String| l@);
    if let Some(v) = value {
        let mut line = String::from_str("cargo:rustc-cfg=");
        line.append(key);
        line.append("=\"");
        line.append(v);
        line.append("\"");
        out.push(line);
    }
    let mut line = String::from_str("cargo:rustc-check-cfg=cfg(");
    line.append(key);
    line.append(", values(");
    line.append(values.as_str());
    line.append("))");
    out.push(line);
    assert(out@.map_values(|l: String| l@) =~= before + key_lines(
        key@,
        match value {
            Some(v) => Some(v@),
            None => None,
        },
        values@,
    ));
}

impl TargetInfo {
    /// The lines a build script prints so that code can be compiled
    /// conditionally on this target: for each key, the value this target has
    /// (if any), then the values the key may take.
    pub fn cargo_lines(&self) -> (r: Vec<String>)
        ensures
            r@.map_values(|l: String| l@) == cargo_lines_spec(*self),
    {
        let mut out: Vec<String> = Vec::new();
        let isa = match self.isa {
            Some(i) => Some(i.name()),
            None => None,
        };
        push_key_lines(&mut out, "arm_isa", isa, Isa::values());
        let arch = match self.arch {
            Some(a) => Some(a.name()),
            None => None,
        };
        push_key_lines(&mut out, "arm_architecture", arch, Arch::values());
        let profile = match self.profile {
            Some(p) => Some(p.name()),
            None => None,
        };
        push_key_lines(&mut out, "arm_profile", profile, Profile::values());
        let abi = match self.abi {
            Some(a) => Some(a.name()),
            None => None,
        };
        push_key_lines(&mut out, "arm_abi", abi, Abi::values());
        assert(out@.map_values(|l: String| l@) =~= cargo_lines_spec(*self));
        out
    }
}

} // verus!
