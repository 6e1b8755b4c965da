use hypervisor::error::HypervisorError;
use hypervisor::error::VmxInstruction;
use hypervisor::mock::MOCK_PHYS_BASE;
use hypervisor::mock::MockHardware;
use hypervisor::vcpu::Vcpu;
use hypervisor::vcpu::VirtualizationState;
use hypervisor::vmm::Vmm;

#[test]
fn vcpu_new_stores_index() {
    let v = Vcpu::new(7).unwrap();
    assert_eq!(v.id(), 7);
    assert_eq!(v.virtualization_state, VirtualizationState::NotVirtualized);
    assert!(v.data.is_none());
}

#[test]
fn two_processor_bringup_reaches_launched() {
    // processor_count = 2 -> empty table; two init_vcpu calls -> indices 0, 1;
    // virtualizing entry 0 with an always-succeeding machine ends Launched.
    let mut hw = MockHardware::new();
    hw.processor_count = 2;
    let mut vmm = Vmm::new(&hw);
    assert_eq!(vmm.processor_count, 2);
    assert!(vmm.vcpu_table.is_empty());
    vmm.init_vcpu().unwrap();
    vmm.init_vcpu().unwrap();
    assert_eq!(vmm.vcpu_table.len(), 2);
    assert_eq!(vmm.vcpu_table[0].id(), 0);
    assert_eq!(vmm.vcpu_table[1].id(), 1);
    let r = vmm.vcpu_table[0].virtualize_cpu(&mut hw);
    assert!(r.is_ok());
    assert_eq!(vmm.vcpu_table[0].virtualization_state, VirtualizationState::Launched);
    assert_eq!(hw.vmxon_calls, 1);
    assert_eq!(hw.vmptrld_calls, 1);
    assert_eq!(hw.vmlaunch_calls, 1);
    assert_eq!(vmm.vcpu_table[1].virtualization_state, VirtualizationState::NotVirtualized);
}

#[test]
fn virtualize_stamps_sanitized_revision_ids() {
    // raw 0x8000001F -> stored 0x0000001F in both stamped headers
    let mut hw = MockHardware::new();
    hw.revision_id = 0x8000_001F;
    let mut v = Vcpu::new(0).unwrap();
    v.virtualize_cpu(&mut hw).unwrap();
    let d = v.data.unwrap();
    assert_eq!(d.vmxon.revision_id, 0x0000_001F);
    assert_eq!(d.vmcs.revision_id, 0x0000_001F);
    // the bitmap region carries no header
    assert_eq!(d.msr_bitmap.revision_id, 0);
}

#[test]
fn virtualize_resolves_all_three_regions() {
    let mut hw = MockHardware::new();
    let mut v = Vcpu::new(0).unwrap();
    v.virtualize_cpu(&mut hw).unwrap();
    let d = v.data.unwrap();
    // bump allocator hands out pages at 4096, 8192, 12288 in the order
    // VMXON, VMCS, MSR bitmap; default translation adds MOCK_PHYS_BASE
    assert_eq!(d.vmxon.va, 4096);
    assert_eq!(d.vmcs.va, 8192);
    assert_eq!(d.msr_bitmap.va, 12288);
    assert_eq!(d.vmxon.physical_address, 4096 + MOCK_PHYS_BASE);
    assert_eq!(d.vmcs.physical_address, 8192 + MOCK_PHYS_BASE);
    assert_eq!(d.msr_bitmap.physical_address, 12288 + MOCK_PHYS_BASE);
}

#[test]
fn vmxon_translation_failure_stops_before_vmxon() {
    // first allocated page (the VMXON region) does not translate
    let mut hw = MockHardware::new();
    hw.set_page_frames(vec![0]);
    let mut v = Vcpu::new(0).unwrap();
    let r = v.virtualize_cpu(&mut hw);
    assert_eq!(r, Err(HypervisorError::AddressTranslationFailure));
    assert_eq!(hw.vmxon_calls, 0);
    assert_eq!(hw.vmptrld_calls, 0);
    assert_eq!(hw.vmlaunch_calls, 0);
    assert!(v.data.is_none());
    assert_eq!(v.virtualization_state, VirtualizationState::RegionsReady);
}

#[test]
fn vmcs_translation_failure_stops_before_vmptrld() {
    // second allocated page (the VMCS region) does not translate
    let mut hw = MockHardware::new();
    hw.set_page_frames(vec![0x111000, 0]);
    let mut v = Vcpu::new(0).unwrap();
    let r = v.virtualize_cpu(&mut hw);
    assert_eq!(r, Err(HypervisorError::AddressTranslationFailure));
    // VMXON had already run; VMPTRLD never did
    assert_eq!(hw.vmxon_calls, 1);
    assert_eq!(hw.vmptrld_calls, 0);
    assert_eq!(hw.vmlaunch_calls, 0);
    assert!(v.data.is_none());
    assert_eq!(v.virtualization_state, VirtualizationState::VmxonDone);
}

#[test]
fn msr_bitmap_translation_failure_stops_before_any_instruction() {
    // third allocated page (the MSR bitmap region) does not translate
    let mut hw = MockHardware::new();
    hw.set_page_frames(vec![0x111000, 0x222000, 0]);
    let mut v = Vcpu::new(0).unwrap();
    let r = v.virtualize_cpu(&mut hw);
    assert_eq!(r, Err(HypervisorError::AddressTranslationFailure));
    assert_eq!(hw.vmxon_calls, 0);
    assert_eq!(hw.vmptrld_calls, 0);
    assert_eq!(hw.vmlaunch_calls, 0);
    assert!(v.data.is_none());
    assert_eq!(v.virtualization_state, VirtualizationState::VmxEnabled);
}

#[test]
fn vcpu_data_initialized_at_most_once() {
    // repeated virtualize_cpu reuses the regions: the allocation counter in
    // the test double stays at three, VMXON and VMPTRLD are not re-executed
    let mut hw = MockHardware::new();
    let mut v = Vcpu::new(0).unwrap();
    assert!(v.virtualize_cpu(&mut hw).is_ok());
    assert!(v.virtualize_cpu(&mut hw).is_ok());
    assert_eq!(hw.alloc_count, 3);
    assert_eq!(hw.vmxon_calls, 1);
    assert_eq!(hw.vmptrld_calls, 1);
    assert_eq!(hw.vmlaunch_calls, 2);
    assert_eq!(v.virtualization_state, VirtualizationState::Launched);
}

#[test]
fn vmxon_instruction_failure_leaves_guard_empty() {
    let mut hw = MockHardware::new();
    hw.vmxon_result = false;
    let mut v = Vcpu::new(0).unwrap();
    let r = v.virtualize_cpu(&mut hw);
    assert_eq!(r, Err(HypervisorError::InstructionFailure(VmxInstruction::Vmxon)));
    assert_eq!(hw.vmxon_calls, 1);
    assert_eq!(hw.vmptrld_calls, 0);
    assert!(v.data.is_none());
    assert_eq!(v.virtualization_state, VirtualizationState::RegionsReady);
}

#[test]
fn vmlaunch_failure_keeps_bundle_and_allows_retry() {
    let mut hw = MockHardware::new();
    hw.vmlaunch_result = false;
    let mut v = Vcpu::new(0).unwrap();
    let r = v.virtualize_cpu(&mut hw);
    assert_eq!(r, Err(HypervisorError::InstructionFailure(VmxInstruction::Vmlaunch)));
    assert!(v.data.is_some());
    assert_eq!(v.virtualization_state, VirtualizationState::VmcsLoaded);
    // the retry runs VMLAUNCH only: regions are not rebuilt
    hw.vmlaunch_result = true;
    assert!(v.virtualize_cpu(&mut hw).is_ok());
    assert_eq!(hw.alloc_count, 3);
    assert_eq!(hw.vmxon_calls, 1);
    assert_eq!(hw.vmlaunch_calls, 2);
    assert_eq!(v.virtualization_state, VirtualizationState::Launched);
}

#[test]
fn devirtualize_runs_vmxoff() {
    let mut hw = MockHardware::new();
    let mut v = Vcpu::new(0).unwrap();
    assert!(v.virtualize_cpu(&mut hw).is_ok());
    assert!(v.devirtualize_cpu(&mut hw).is_ok());
    assert_eq!(hw.vmxoff_calls, 1);
    assert_eq!(v.virtualization_state, VirtualizationState::NotVirtualized);
}

#[test]
fn devirtualize_propagates_vmxoff_failure() {
    let mut hw = MockHardware::new();
    hw.vmxoff_result = false;
    let mut v = Vcpu::new(0).unwrap();
    assert!(v.virtualize_cpu(&mut hw).is_ok());
    let r = v.devirtualize_cpu(&mut hw);
    assert_eq!(r, Err(HypervisorError::InstructionFailure(VmxInstruction::Vmxoff)));
    assert_eq!(v.virtualization_state, VirtualizationState::Launched);
}

#[test]
fn vmm_stepwise_region_setup() {
    let mut hw = MockHardware::new();
    hw.revision_id = 0x8000_001F;
    let mut vmm = Vmm::new(&hw);
    vmm.init_vcpu().unwrap();
    assert!(vmm.enable_vmx_operation(&mut hw).is_ok());
    vmm.adjust_control_registers(&mut hw);
    assert!(vmm.init_msr_bitmap(&mut hw, 0).is_ok());
    assert!(vmm.init_vmxon(&mut hw, 0).is_ok());
    assert!(vmm.init_vmcs(&mut hw, 0).is_ok());
    assert_eq!(hw.vmxon_calls, 1);
    assert_eq!(hw.vmptrld_calls, 1);
    let d = vmm.vcpu_table[0].data.unwrap();
    assert_ne!(d.msr_bitmap.physical_address, 0);
    assert_ne!(d.vmxon.physical_address, 0);
    assert_ne!(d.vmcs.physical_address, 0);
    assert_eq!(d.vmxon.revision_id, 0x0000_001F);
    assert_eq!(d.vmcs.revision_id, 0x0000_001F);
}

#[test]
fn vmm_init_msr_bitmap_translation_failure() {
    let mut hw = MockHardware::new();
    // the stepwise path allocates VMXON, VMCS, MSR bitmap in that order,
    // so the third page is the bitmap region
    hw.set_page_frames(vec![0x111000, 0x222000, 0]);
    let mut vmm = Vmm::new(&hw);
    vmm.init_vcpu().unwrap();
    let r = vmm.init_msr_bitmap(&mut hw, 0);
    assert_eq!(r, Err(HypervisorError::AddressTranslationFailure));
    assert!(vmm.vcpu_table[0].data.is_none());
    assert_eq!(hw.vmxon_calls, 0);
}

#[test]
fn vmm_init_vmxon_translation_failure() {
    let mut hw = MockHardware::new();
    hw.set_page_frames(vec![0]);
    let mut vmm = Vmm::new(&hw);
    vmm.init_vcpu().unwrap();
    let r = vmm.init_vmxon(&mut hw, 0);
    assert_eq!(r, Err(HypervisorError::AddressTranslationFailure));
    assert!(vmm.vcpu_table[0].data.is_none());
    assert_eq!(hw.vmxon_calls, 0);
}
