//! Bring-up core for an Intel VT-x hypervisor: transitions logical processors
//! into VMX root operation, validates the per-processor control structures
//! that VMX requires, and launches guest execution.
//!
//! All privileged machine access (control registers, MSRs, VMX instructions,
//! page allocation, address translation) goes through the [`hardware::HardwareOps`]
//! interface, so the orchestration logic here is verified against an explicit
//! model of the machine. A deterministic in-memory implementation lives in
//! [`mock`]; a real binding must live outside this crate.

pub mod error;
pub mod hardware;
pub mod support;
pub mod mock;
pub mod vcpu;
pub mod vcpu_data;
pub mod vmm;
