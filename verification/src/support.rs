use vstd::prelude::*;

use crate::error::HypervisorError;
use crate::hardware::HardwareOps;
use crate::hardware::same_machine_statics;
use crate::hardware::same_translations;

verus! {

/// Bit 0 of IA32_FEATURE_CONTROL: the firmware lock bit. Once set, the
/// register is fixed for the remainder of the power cycle.
pub const VMX_LOCK_BIT: u64 = 1;

/// Bit 2 of IA32_FEATURE_CONTROL: VMXON permitted outside SMX operation.
pub const VMXON_OUTSIDE_SMX: u64 = 4;

/// Bit 13 of CR4: the VMX-enable bit.
pub const CR4_VMX_ENABLE: u64 = 0x2000;

/// Bit 31 of a revision identifier: the shadow-VMCS indicator, which must be
/// cleared before the identifier is stamped into a VMXON or VMCS region.
pub const REVISION_ID_SHADOW_BIT: u32 = 0x8000_0000;

/// Mask keeping the low 31 bits of a revision identifier.
pub const REVISION_ID_MASK: u32 = 0x7FFF_FFFF;

/// The two-mask merge that forces a control register into the envelope the
/// fixed-mask MSRs mandate: FIXED0 bits are forced on, bits outside FIXED1
/// are forced off.
pub open spec fn spec_apply_fixed_masks(value: u64, fixed0: u64, fixed1: u64) -> u64 {
    (value | fixed0) & fixed1
}

/// Merge a control-register value with its FIXED0/FIXED1 mask pair.
pub fn apply_fixed_masks(value: u64, fixed0: u64, fixed1: u64) -> (r: u64)
    ensures
        r == spec_apply_fixed_masks(value, fixed0, fixed1),
        r & !fixed1 == 0,
{
    proof {
        assert((value | fixed0) & fixed1 & !fixed1 == 0) by (bit_vector);
    }
    (value | fixed0) & fixed1
}

/// Law: after the two-mask merge every FIXED0 bit is set and every bit
/// outside FIXED1 is clear, for any starting value and any mask pair in
/// which each mandatory-one bit is also an allowed-one bit (which the
/// hardware guarantees of the fixed-mask MSR pairs).
pub proof fn lemma_fixed_masks_envelope(value: u64, fixed0: u64, fixed1: u64)
    requires
        fixed0 & fixed1 == fixed0,
    ensures
        spec_apply_fixed_masks(value, fixed0, fixed1) & fixed0 == fixed0,
        spec_apply_fixed_masks(value, fixed0, fixed1) & !fixed1 == 0,
{
    assert((value | fixed0) & fixed1 & fixed0 == fixed0 && (value | fixed0) & fixed1 & !fixed1 == 0)
        by (bit_vector)
        requires
            fixed0 & fixed1 == fixed0,
    ;
}

/// The revision identifier as stored into a region header: the raw
/// hardware-reported value with the shadow-VMCS bit forced to zero.
pub open spec fn spec_sanitize_revision_id(raw: u32) -> u32 {
    raw & REVISION_ID_MASK
}

/// Clear the shadow-VMCS indicator (bit 31) of a raw revision identifier.
/// Whatever the raw value, the stored value never has bit 31 set.
pub fn sanitize_revision_id(raw: u32) -> (r: u32)
    ensures
        r == spec_sanitize_revision_id(raw),
        r & REVISION_ID_SHADOW_BIT == 0,
{
    proof {
        assert(raw & 0x7FFF_FFFFu32 & 0x8000_0000u32 == 0) by (bit_vector);
    }
    raw & REVISION_ID_MASK
}

/// Check, and if needed set, the VMX permission bits in IA32_FEATURE_CONTROL.
///
/// With the lock bit clear, the lock bit and the outside-SMX bit are set in
/// one write that preserves every other bit. With the lock bit already set by
/// firmware, no write is performed: the call succeeds when the outside-SMX
/// bit is present and reports `FirmwareLockViolation` when it is not, a
/// non-retryable environmental refusal.
pub fn set_lock_bit<H: HardwareOps>(hw: &mut H) -> (r: Result<(), HypervisorError>)
    ensures
        old(hw).feature_control() & VMX_LOCK_BIT == 0 ==> (
            r is Ok
            && final(hw).feature_control()
                == (old(hw).feature_control() | VMX_LOCK_BIT | VMXON_OUTSIDE_SMX)
            && final(hw).cr0() == old(hw).cr0()
            && final(hw).cr4() == old(hw).cr4()
            && same_machine_statics(*old(hw), *final(hw))
            && same_translations(*old(hw), *final(hw))
            && final(hw).ops() == old(hw).ops()
        ),
        (old(hw).feature_control() & VMX_LOCK_BIT != 0
            && old(hw).feature_control() & VMXON_OUTSIDE_SMX == 0) ==> (
            r == Err::<(), HypervisorError>(HypervisorError::FirmwareLockViolation)
            && *final(hw) == *old(hw)
        ),
        (old(hw).feature_control() & VMX_LOCK_BIT != 0
            && old(hw).feature_control() & VMXON_OUTSIDE_SMX != 0) ==> (
            r is Ok
            && *final(hw) == *old(hw)
        ),
{
    let feature_control = hw.read_feature_control();
    if feature_control & VMX_LOCK_BIT == 0 {
        hw.write_feature_control(feature_control | VMX_LOCK_BIT | VMXON_OUTSIDE_SMX);
        Ok(())
    } else if feature_control & VMXON_OUTSIDE_SMX == 0 {
        Err(HypervisorError::FirmwareLockViolation)
    } else {
        Ok(())
    }
}

/// Set the mandatory bits in CR0 and clear its mandatory-zero bits, as the
/// IA32_VMX_CR0_FIXED0/FIXED1 pair mandates.
pub fn set_cr0_bits<H: HardwareOps>(hw: &mut H)
    ensures
        final(hw).cr0()
            == spec_apply_fixed_masks(old(hw).cr0(), old(hw).cr0_fixed0(), old(hw).cr0_fixed1()),
        final(hw).feature_control() == old(hw).feature_control(),
        final(hw).cr4() == old(hw).cr4(),
        same_machine_statics(*old(hw), *final(hw)),
        same_translations(*old(hw), *final(hw)),
        final(hw).ops() == old(hw).ops(),
{
    let fixed0 = hw.read_cr0_fixed0();
    let fixed1 = hw.read_cr0_fixed1();
    let cr0 = hw.read_cr0();
    let merged = apply_fixed_masks(cr0, fixed0, fixed1);
    hw.write_cr0(merged);
}

/// Set the mandatory bits in CR4 and clear its mandatory-zero bits, as the
/// IA32_VMX_CR4_FIXED0/FIXED1 pair mandates.
pub fn set_cr4_bits<H: HardwareOps>(hw: &mut H)
    ensures
        final(hw).cr4()
            == spec_apply_fixed_masks(old(hw).cr4(), old(hw).cr4_fixed0(), old(hw).cr4_fixed1()),
        final(hw).feature_control() == old(hw).feature_control(),
        final(hw).cr0() == old(hw).cr0(),
        same_machine_statics(*old(hw), *final(hw)),
        same_translations(*old(hw), *final(hw)),
        final(hw).ops() == old(hw).ops(),
{
    let fixed0 = hw.read_cr4_fixed0();
    let fixed1 = hw.read_cr4_fixed1();
    let cr4 = hw.read_cr4();
    let merged = apply_fixed_masks(cr4, fixed0, fixed1);
    hw.write_cr4(merged);
}

/// Force CR0 and then CR4 into the hardware-mandated envelope. Applied
/// unconditionally on every call; side-effect only.
pub fn adjust_control_registers<H: HardwareOps>(hw: &mut H)
    ensures
        final(hw).cr0()
            == spec_apply_fixed_masks(old(hw).cr0(), old(hw).cr0_fixed0(), old(hw).cr0_fixed1()),
        final(hw).cr4()
            == spec_apply_fixed_masks(old(hw).cr4(), old(hw).cr4_fixed0(), old(hw).cr4_fixed1()),
        final(hw).feature_control() == old(hw).feature_control(),
        same_machine_statics(*old(hw), *final(hw)),
        same_translations(*old(hw), *final(hw)),
        final(hw).ops() == old(hw).ops(),
{
    set_cr0_bits(hw);
    set_cr4_bits(hw);
}

/// Enable VMX operation: set CR4's VMX-enable bit, then run the
/// feature-control lock procedure. The CR4 bit is set before the lock check,
/// so it remains set even when the lock check refuses.
pub fn enable_vmx_operation<H: HardwareOps>(hw: &mut H) -> (r: Result<(), HypervisorError>)
    ensures
        final(hw).cr4() == (old(hw).cr4() | CR4_VMX_ENABLE),
        final(hw).cr0() == old(hw).cr0(),
        same_machine_statics(*old(hw), *final(hw)),
        same_translations(*old(hw), *final(hw)),
        final(hw).ops() == old(hw).ops(),
        r is Ok || r == Err::<(), HypervisorError>(HypervisorError::FirmwareLockViolation),
        (r == Err::<(), HypervisorError>(HypervisorError::FirmwareLockViolation)) <==> (
            old(hw).feature_control() & VMX_LOCK_BIT != 0
            && old(hw).feature_control() & VMXON_OUTSIDE_SMX == 0
        ),
        old(hw).feature_control() & VMX_LOCK_BIT == 0 ==> final(hw).feature_control()
            == (old(hw).feature_control() | VMX_LOCK_BIT | VMXON_OUTSIDE_SMX),
        old(hw).feature_control() & VMX_LOCK_BIT != 0 ==> final(hw).feature_control()
            == old(hw).feature_control(),
{
    let cr4 = hw.read_cr4();
    hw.write_cr4(cr4 | CR4_VMX_ENABLE);
    set_lock_bit(hw)?;
    Ok(())
}

} // verus!
