//! Guest-exit handling for a single-vCPU ARM64 virtual machine monitor.
//!
//! The library decodes exception syndromes, emulates memory-mapped devices and
//! trapped system-register accesses, and decides after every guest exit whether
//! and where the guest resumes. The host hypervisor itself is driven by the
//! caller, which hands the library the exit it observed and the register file.
pub mod syndrome;
pub mod vcpu;
pub mod mmio;
pub mod pl011_uart;
pub mod sysreg;
pub mod dispatch;
pub mod memory;
pub mod boot;
