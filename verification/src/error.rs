use vstd::prelude::*;

verus! {

/// The VMX instruction whose execution reported failure.
#[derive(Clone, Copy, Debug, PartialEq, Eq, Structural)]
pub enum VmxInstruction {
    Vmxon,
    Vmptrld,
    Vmlaunch,
    Vmxoff,
}

/// Errors surfaced by the bring-up core. Every operation reports its failure
/// to its immediate caller; nothing is retried internally.
#[derive(Clone, Copy, Debug, PartialEq, Eq, Structural)]
pub enum HypervisorError {
    /// Virtual-to-physical resolution returned the zero sentinel for a
    /// required region. Non-recoverable for that processor's bring-up.
    AddressTranslationFailure,
    /// The IA32_FEATURE_CONTROL lock bit is set without the outside-SMX
    /// permission bit: an environmental precondition imposed by firmware.
    FirmwareLockViolation,
    /// A VMX instruction failed; the sequence aborts at the point of failure
    /// with no automatic register or region rollback.
    InstructionFailure(VmxInstruction),
}

} // verus!
