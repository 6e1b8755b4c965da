use hypervisor::error::HypervisorError;
use hypervisor::mock::MockHardware;
use hypervisor::support::CR4_VMX_ENABLE;
use hypervisor::support::VMXON_OUTSIDE_SMX;
use hypervisor::support::VMX_LOCK_BIT;
use hypervisor::support::apply_fixed_masks;
use hypervisor::support::enable_vmx_operation;
use hypervisor::support::sanitize_revision_id;
use hypervisor::support::set_lock_bit;
use hypervisor::vmm::Vmm;

#[test]
fn fixed_masks_merge_exact_value() {
    // (0b1010 | 0b0001) & 0b1011 == 0b1011
    assert_eq!(apply_fixed_masks(0b1010, 0b0001, 0b1011), 0b1011);
    // forced-on bit appears even when absent from the start value
    assert_eq!(apply_fixed_masks(0, 0x20, u64::MAX), 0x20);
    // mandatory-zero bit is cleared
    assert_eq!(apply_fixed_masks(0xFF, 0, !0x80u64), 0x7F);
}

#[test]
fn fixed_masks_envelope_holds_on_adjustment() {
    let mut hw = MockHardware::new();
    hw.cr0 = 0x8000_0011;
    hw.cr0_fixed0 = 0x0000_0021;
    hw.cr0_fixed1 = 0xFFFF_FFFF_7FFF_FFFF;
    hw.cr4 = 0x0;
    hw.cr4_fixed0 = 0x2000;
    hw.cr4_fixed1 = 0x0007_FFFF;
    hypervisor::support::adjust_control_registers(&mut hw);
    // after adjustment: (result & FIXED0) == FIXED0 and (result & !FIXED1) == 0
    assert_eq!(hw.cr0 & 0x0000_0021, 0x0000_0021);
    assert_eq!(hw.cr0 & !0xFFFF_FFFF_7FFF_FFFFu64, 0);
    assert_eq!(hw.cr0, (0x8000_0011u64 | 0x21) & 0xFFFF_FFFF_7FFF_FFFF);
    assert_eq!(hw.cr4 & 0x2000, 0x2000);
    assert_eq!(hw.cr4 & !0x0007_FFFFu64, 0);
    assert_eq!(hw.cr4, 0x2000);
}

#[test]
fn revision_id_bit31_cleared() {
    assert_eq!(sanitize_revision_id(0x8000_001F), 0x0000_001F);
    assert_eq!(sanitize_revision_id(0x0000_001F), 0x0000_001F);
    assert_eq!(sanitize_revision_id(0xFFFF_FFFF), 0x7FFF_FFFF);
}

#[test]
fn lock_bit_already_set_with_smx_is_idempotent() {
    let mut hw = MockHardware::new();
    hw.feature_control = VMX_LOCK_BIT | VMXON_OUTSIDE_SMX | 0b1000;
    let r = set_lock_bit(&mut hw);
    assert!(r.is_ok());
    assert_eq!(hw.feature_control, VMX_LOCK_BIT | VMXON_OUTSIDE_SMX | 0b1000);
    // no write was performed
    assert_eq!(hw.feature_control_writes, 0);
}

#[test]
fn lock_bit_set_without_smx_is_firmware_lock_violation() {
    let mut hw = MockHardware::new();
    hw.feature_control = 0b001;
    assert_eq!(set_lock_bit(&mut hw), Err(HypervisorError::FirmwareLockViolation));
    assert_eq!(hw.feature_control_writes, 0);

    // any other bit pattern with lock=1, outside-SMX=0 fails the same way
    let mut hw = MockHardware::new();
    hw.feature_control = 0xFFFF_FFFF_FFFF_FFF9;
    assert_eq!(set_lock_bit(&mut hw), Err(HypervisorError::FirmwareLockViolation));
    assert_eq!(hw.feature_control, 0xFFFF_FFFF_FFFF_FFF9);
    assert_eq!(hw.feature_control_writes, 0);
}

#[test]
fn lock_bit_clear_writes_exactly_lock_and_smx() {
    let mut hw = MockHardware::new();
    hw.feature_control = 0b1000;
    let r = set_lock_bit(&mut hw);
    assert!(r.is_ok());
    // exactly feature_control | lock_bit | outside_smx
    assert_eq!(hw.feature_control, 0b1000 | VMX_LOCK_BIT | VMXON_OUTSIDE_SMX);
    assert_eq!(hw.feature_control_writes, 1);
}

#[test]
fn enable_vmx_sets_cr4_before_lock_check() {
    // feature_control = 0b001: lock set, outside-SMX clear
    let mut hw = MockHardware::new();
    hw.feature_control = 0b001;
    hw.cr4 = 0;
    let r = enable_vmx_operation(&mut hw);
    assert_eq!(r, Err(HypervisorError::FirmwareLockViolation));
    // CR4's VMX-enable bit is still set: it is set before the lock check
    assert_eq!(hw.cr4 & CR4_VMX_ENABLE, CR4_VMX_ENABLE);
    // but no further bring-up step executed
    assert_eq!(hw.vmxon_calls, 0);
    assert_eq!(hw.vmptrld_calls, 0);
    assert_eq!(hw.vmlaunch_calls, 0);
    assert_eq!(hw.feature_control, 0b001);
}

#[test]
fn vmm_enable_and_adjust_delegate() {
    let mut hw = MockHardware::new();
    hw.feature_control = 0;
    hw.cr4_fixed0 = 0x2000;
    hw.cr4_fixed1 = u64::MAX;
    hw.cr0_fixed1 = u64::MAX;
    let vmm = Vmm::new(&hw);
    assert!(vmm.enable_vmx_operation(&mut hw).is_ok());
    assert_eq!(hw.feature_control, VMX_LOCK_BIT | VMXON_OUTSIDE_SMX);
    assert_eq!(hw.cr4 & CR4_VMX_ENABLE, CR4_VMX_ENABLE);
    vmm.adjust_control_registers(&mut hw);
    assert_eq!(hw.cr4 & 0x2000, 0x2000);
}
