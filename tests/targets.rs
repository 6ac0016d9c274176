use aarch32::targets::{process_target, Abi, Arch, Isa, Profile};

#[test]
fn armv4t_none_eabi() {
    let target = "armv4t-none-eabi";
    let target_info = process_target(target);
    assert_eq!(target_info.isa(), Some(Isa::A32));
    assert_eq!(target_info.arch(), Some(Arch::Armv4T));
    assert_eq!(target_info.profile(), Some(Profile::Legacy));
    assert_eq!(target_info.abi(), Some(Abi::Eabi));
}

#[test]
fn armv5te_none_eabi() {
    let target = "armv5te-none-eabi";
    let target_info = process_target(target);
    assert_eq!(target_info.isa(), Some(Isa::A32));
    assert_eq!(target_info.arch(), Some(Arch::Armv5TE));
    assert_eq!(target_info.profile(), Some(Profile::Legacy));
    assert_eq!(target_info.abi(), Some(Abi::Eabi));
}

#[test]
fn armv6_none_eabi() {
    let target = "armv6-none-eabi";
    let target_info = process_target(target);
    assert_eq!(target_info.isa(), Some(Isa::A32));
    assert_eq!(target_info.arch(), Some(Arch::Armv6));
    assert_eq!(target_info.profile(), Some(Profile::Legacy));
    assert_eq!(target_info.abi(), Some(Abi::Eabi));
}

#[test]
fn armv6_none_eabihf() {
    let target = "armv6-none-eabihf";
    let target_info = process_target(target);
    assert_eq!(target_info.isa(), Some(Isa::A32));
    assert_eq!(target_info.arch(), Some(Arch::Armv6));
    assert_eq!(target_info.profile(), Some(Profile::Legacy));
    assert_eq!(target_info.abi(), Some(Abi::EabiHf));
}

#[test]
fn arm_unknown_linux_gnueabi() {
    let target = "arm-unknown-linux-gnueabi";
    let target_info = process_target(target);
    assert_eq!(target_info.isa(), Some(Isa::A32));
    assert_eq!(target_info.arch(), Some(Arch::Armv6));
    assert_eq!(target_info.profile(), Some(Profile::Legacy));
    assert_eq!(target_info.abi(), Some(Abi::Eabi));
}

#[test]
fn thumbv6m_none_eabi() {
    let target = "thumbv6m-none-eabi";
    let target_info = process_target(target);
    assert_eq!(target_info.isa(), Some(Isa::T32));
    assert_eq!(target_info.arch(), Some(Arch::Armv6M));
    assert_eq!(target_info.profile(), Some(Profile::M));
    assert_eq!(target_info.abi(), Some(Abi::Eabi));
}

#[test]
fn thumbv7m_none_eabi() {
    let target = "thumbv7m-none-eabi";
    let target_info = process_target(target);
    assert_eq!(target_info.isa(), Some(Isa::T32));
    assert_eq!(target_info.arch(), Some(Arch::Armv7M));
    assert_eq!(target_info.profile(), Some(Profile::M));
    assert_eq!(target_info.abi(), Some(Abi::Eabi));
}

#[test]
fn thumbv7em_nuttx_eabihf() {
    let target = "thumbv7em-nuttx-eabihf";
    let target_info = process_target(target);
    assert_eq!(target_info.isa(), Some(Isa::T32));
    assert_eq!(target_info.arch(), Some(Arch::Armv7EM));
    assert_eq!(target_info.profile(), Some(Profile::M));
    assert_eq!(target_info.abi(), Some(Abi::EabiHf));
}

#[test]
fn thumbv8m_base_none_eabi() {
    let target = "thumbv8m.base-none-eabi";
    let target_info = process_target(target);
    assert_eq!(target_info.isa(), Some(Isa::T32));
    assert_eq!(target_info.arch(), Some(Arch::Armv8MBase));
    assert_eq!(target_info.profile(), Some(Profile::M));
    assert_eq!(target_info.abi(), Some(Abi::Eabi));
}

#[test]
fn thumbv8m_main_none_eabihf() {
    let target = "thumbv8m.main-none-eabihf";
    let target_info = process_target(target);
    assert_eq!(target_info.isa(), Some(Isa::T32));
    assert_eq!(target_info.arch(), Some(Arch::Armv8MMain));
    assert_eq!(target_info.profile(), Some(Profile::M));
    assert_eq!(target_info.abi(), Some(Abi::EabiHf));
}

#[test]
fn armv7r_none_eabi() {
    let target = "armv7r-none-eabi";
    let target_info = process_target(target);
    assert_eq!(target_info.isa(), Some(Isa::A32));
    assert_eq!(target_info.arch(), Some(Arch::Armv7R));
    assert_eq!(target_info.profile(), Some(Profile::R));
    assert_eq!(target_info.abi(), Some(Abi::Eabi));
}

#[test]
fn armv8r_none_eabihf() {
    let target = "armv8r-none-eabihf";
    let target_info = process_target(target);
    assert_eq!(target_info.isa(), Some(Isa::A32));
    assert_eq!(target_info.arch(), Some(Arch::Armv8R));
    assert_eq!(target_info.profile(), Some(Profile::R));
    assert_eq!(target_info.abi(), Some(Abi::EabiHf));
}

#[test]
fn thumbv8r_none_eabihf() {
    let target = "thumbv8r-none-eabihf";
    let target_info = process_target(target);
    assert_eq!(target_info.isa(), Some(Isa::T32));
    assert_eq!(target_info.arch(), Some(Arch::Armv8R));
    assert_eq!(target_info.profile(), Some(Profile::R));
    assert_eq!(target_info.abi(), Some(Abi::EabiHf));
}

#[test]
fn armv7a_none_eabi() {
    let target = "armv7a-none-eabi";
    let target_info = process_target(target);
    assert_eq!(target_info.isa(), Some(Isa::A32));
    assert_eq!(target_info.arch(), Some(Arch::Armv7A));
    assert_eq!(target_info.profile(), Some(Profile::A));
    assert_eq!(target_info.abi(), Some(Abi::Eabi));
}

#[test]
fn aarch64_none_eabihf() {
    let target = "aarch64-unknown-none";
    let target_info = process_target(target);
    assert_eq!(target_info.isa(), Some(Isa::A64));
    assert_eq!(target_info.arch(), Some(Arch::Armv8A));
    assert_eq!(target_info.profile(), Some(Profile::A));
    assert_eq!(target_info.abi(), None);
}

#[test]
fn unknown_target_has_nothing() {
    let info = process_target("x86_64-unknown-linux-gnu");
    assert_eq!(info.isa(), None);
    assert_eq!(info.arch(), None);
    assert_eq!(info.profile(), None);
    assert_eq!(info.abi(), None);
}

#[test]
fn abi_needs_a_known_architecture() {
    assert_eq!(Abi::get("riscv32-none-eabi"), None);
    assert_eq!(Arch::get("armebv7r-none-eabihf"), Some(Arch::Armv7R));
    assert_eq!(Abi::get("armebv7r-none-eabihf"), Some(Abi::EabiHf));
    assert_eq!(Profile::get("thumbv7a-none-eabi"), Some(Profile::A));
}

#[test]
fn value_lists() {
    assert_eq!(Isa::values(), r#""a64", "a32", "t32""#);
    assert_eq!(
        Arch::values(),
        r#""v4t", "v5te", "v6", "v6-m", "v7-m", "v7e-m", "v8-m.base", "v8-m.main", "v7-r", "v8-r", "v7-a", "v8-a""#
    );
    assert_eq!(Profile::values(), r#""a", "r", "m", "legacy""#);
    assert_eq!(Abi::values(), r#""eabi", "eabihf""#);
}

#[test]
fn cargo_lines_for_a_target() {
    let lines = process_target("armv8r-none-eabihf").cargo_lines();
    assert_eq!(
        lines,
        vec![
            r#"cargo:rustc-cfg=arm_isa="a32""#.to_string(),
            r#"cargo:rustc-check-cfg=cfg(arm_isa, values("a64", "a32", "t32"))"#.to_string(),
            r#"cargo:rustc-cfg=arm_architecture="v8-r""#.to_string(),
            r#"cargo:rustc-check-cfg=cfg(arm_architecture, values("v4t", "v5te", "v6", "v6-m", "v7-m", "v7e-m", "v8-m.base", "v8-m.main", "v7-r", "v8-r", "v7-a", "v8-a"))"#.to_string(),
            r#"cargo:rustc-cfg=arm_profile="r""#.to_string(),
            r#"cargo:rustc-check-cfg=cfg(arm_profile, values("a", "r", "m", "legacy"))"#.to_string(),
            r#"cargo:rustc-cfg=arm_abi="eabihf""#.to_string(),
            r#"cargo:rustc-check-cfg=cfg(arm_abi, values("eabi", "eabihf"))"#.to_string(),
        ]
    );
    let lines = process_target("riscv32imac-unknown-none-elf").cargo_lines();
    assert_eq!(lines.len(), 4);
    assert!(lines.iter().all(|l| l.starts_with("cargo:rustc-check-cfg=")));
}

#[test]
fn names_of_values() {
    assert_eq!(Arch::Armv8MBase.name(), "v8-m.base");
    assert_eq!(Profile::Legacy.name(), "legacy");
    assert_eq!(Isa::T32.name(), "t32");
    assert_eq!(Abi::EabiHf.name(), "eabihf");
}
