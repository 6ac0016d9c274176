//! Verified model of an AArch32 bare-metal runtime: system-register and MMU
//! descriptor encodings, per-mode stack layout, exception entry and exit, and
//! the classification of Arm target strings.

pub mod bits;
pub mod mmu;
pub mod stacks;
pub mod stack_usage;
pub mod boot;
pub mod targets;
pub mod hsr;
pub mod dacr;
pub mod hcptr;
pub mod hcr;
pub mod ttbr0;
pub mod iciallu;
pub mod trampoline;
