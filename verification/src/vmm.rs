use vstd::prelude::*;

use crate::error::HypervisorError;
use crate::error::VmxInstruction;
use crate::hardware::HardwareOps;
use crate::hardware::VmxOp;
use crate::hardware::same_machine_statics;
use crate::hardware::same_registers;
use crate::hardware::same_translations;
use crate::support;
use crate::support::CR4_VMX_ENABLE;
use crate::support::REVISION_ID_SHADOW_BIT;
use crate::support::VMXON_OUTSIDE_SMX;
use crate::support::VMX_LOCK_BIT;
use crate::support::spec_apply_fixed_masks;
use crate::support::spec_sanitize_revision_id;
use crate::vcpu::Vcpu;
use crate::vcpu::VirtualizationState;
use crate::vcpu_data::VcpuData;

verus! {

/// Top-level orchestrator: owns the ordered table of per-processor handles
/// (one slot per discovered logical processor, indices mapping 1:1) and the
/// processor count captured at construction. Table population precedes any
/// hardware transition.
pub struct Vmm {
    pub vcpu_table: Vec<Vcpu>,
    pub processor_count: u32,
}

impl Vmm {
    /// Query the processor count and create the empty table, sized to grow
    /// to that count. No hardware side effects.
    pub fn new<H: HardwareOps>(hw: &H) -> (r: Vmm)
        ensures
            r.processor_count == hw.proc_count(),
            r.vcpu_table@.len() == 0,
    {
        Vmm { processor_count: hw.processor_count(), vcpu_table: Vec::new() }
    }

    /// Append a freshly constructed handle for the next index. Table growth
    /// only; does not touch hardware. The table holds at most one slot per
    /// discovered logical processor.
    pub fn init_vcpu(&mut self) -> (r: Result<(), HypervisorError>)
        requires
            old(self).vcpu_table@.len() < old(self).processor_count,
        ensures
            r is Ok,
            final(self).processor_count == old(self).processor_count,
            final(self).vcpu_table@.len() == old(self).vcpu_table@.len() + 1,
            forall|i: int|
                0 <= i < old(self).vcpu_table@.len()
                    ==> final(self).vcpu_table@[i] == old(self).vcpu_table@[i],
            final(self).vcpu_table@.last().index == old(self).vcpu_table@.len(),
            final(self).vcpu_table@.last().virtualization_state
                == VirtualizationState::NotVirtualized,
            final(self).vcpu_table@.last().data is None,
    {
        let index = self.vcpu_table.len() as u32;
        let vcpu = Vcpu::new(index)?;
        self.vcpu_table.push(vcpu);
        Ok(())
    }

    /// Resolve and cache the physical address of the processor's MSR bitmap
    /// region, allocating the processor's region bundle first if it has none
    /// yet. Fails with `AddressTranslationFailure`, caching nothing, exactly
    /// when the translation returns the zero sentinel; no hardware
    /// instruction runs either way.
    pub fn init_msr_bitmap<H: HardwareOps>(&mut self, hw: &mut H, index: usize) -> (r: Result<
        (),
        HypervisorError,
    >)
        requires
            index < old(self).vcpu_table@.len(),
        ensures
            r is Ok || r == Err::<(), HypervisorError>(
                HypervisorError::AddressTranslationFailure),
            final(self).processor_count == old(self).processor_count,
            final(self).vcpu_table@.len() == old(self).vcpu_table@.len(),
            forall|i: int|
                0 <= i < old(self).vcpu_table@.len() && i != index
                    ==> final(self).vcpu_table@[i] == old(self).vcpu_table@[i],
            final(self).vcpu_table@[index as int].index
                == old(self).vcpu_table@[index as int].index,
            final(self).vcpu_table@[index as int].virtualization_state
                == old(self).vcpu_table@[index as int].virtualization_state,
            same_registers(*old(hw), *final(hw)),
            same_machine_statics(*old(hw), *final(hw)),
            final(hw).ops() == old(hw).ops(),
            r is Err ==> final(self).vcpu_table@[index as int]
                == old(self).vcpu_table@[index as int],
            // with the bundle already present the machine is untouched and
            // the outcome is exact
            old(self).vcpu_table@[index as int].data matches Some(d) ==> (
                *final(hw) == *old(hw)
                && (old(hw).translation(d.msr_bitmap.va) == 0 ==> r == Err::<(),
                    HypervisorError>(HypervisorError::AddressTranslationFailure))
                && (old(hw).translation(d.msr_bitmap.va) != 0 ==> (
                    r is Ok
                    && (final(self).vcpu_table@[index as int].data matches Some(d2)
                        && d2.msr_bitmap.physical_address
                            == old(hw).translation(d.msr_bitmap.va)
                        && d2.msr_bitmap.va == d.msr_bitmap.va
                        && d2.msr_bitmap.revision_id == d.msr_bitmap.revision_id
                        && d2.vmxon == d.vmxon
                        && d2.vmcs == d.vmcs)
                ))
            ),
            // with no bundle yet, one is allocated and its bitmap resolved
            old(self).vcpu_table@[index as int].data is None ==> (
                r is Ok ==> (
                    final(self).vcpu_table@[index as int].data matches Some(d2)
                    && d2.page_backed()
                    && d2.msr_bitmap.physical_address
                        == final(hw).translation(d2.msr_bitmap.va)
                    && d2.msr_bitmap.physical_address != 0
                    && d2.vmxon.physical_address == 0
                    && d2.vmcs.physical_address == 0
                )
            ),
    {
        let mut vcpu = self.vcpu_table.remove(index);
        let mut d = match vcpu.data {
            Some(existing) => existing,
            None => VcpuData::allocate_regions(hw),
        };
        let result = match d.init_msr_bitmap(hw) {
            Ok(()) => {
                vcpu.data = Some(d);
                Ok(())
            },
            Err(e) => Err(e),
        };
        self.vcpu_table.insert(index, vcpu);
        result
    }

    /// Resolve and cache the physical address of the processor's VMXON
    /// region, stamp its header with the sanitized revision identifier
    /// (bit 31 forced to 0), and execute VMXON at that physical address,
    /// allocating the processor's region bundle first if it has none yet.
    ///
    /// Must run after `enable_vmx_operation` for the same processor. A zero
    /// translation fails with `AddressTranslationFailure` before any
    /// hardware instruction runs; an instruction failure is propagated as
    /// `InstructionFailure(Vmxon)` with the resolved region kept.
    pub fn init_vmxon<H: HardwareOps>(&mut self, hw: &mut H, index: usize) -> (r: Result<
        (),
        HypervisorError,
    >)
        requires
            index < old(self).vcpu_table@.len(),
        ensures
            r is Ok || r == Err::<(), HypervisorError>(
                HypervisorError::AddressTranslationFailure) || r == Err::<(),
                HypervisorError>(HypervisorError::InstructionFailure(VmxInstruction::Vmxon)),
            final(self).processor_count == old(self).processor_count,
            final(self).vcpu_table@.len() == old(self).vcpu_table@.len(),
            forall|i: int|
                0 <= i < old(self).vcpu_table@.len() && i != index
                    ==> final(self).vcpu_table@[i] == old(self).vcpu_table@[i],
            final(self).vcpu_table@[index as int].index
                == old(self).vcpu_table@[index as int].index,
            final(self).vcpu_table@[index as int].virtualization_state
                == old(self).vcpu_table@[index as int].virtualization_state,
            same_registers(*old(hw), *final(hw)),
            same_machine_statics(*old(hw), *final(hw)),
            // at most the one VMXON is executed, and never after a failed translation
            r == Err::<(), HypervisorError>(HypervisorError::AddressTranslationFailure) ==> (
                final(hw).ops() == old(hw).ops()
                && final(self).vcpu_table@[index as int]
                    == old(self).vcpu_table@[index as int]
            ),
            !(r == Err::<(), HypervisorError>(HypervisorError::AddressTranslationFailure)) ==> (
                final(self).vcpu_table@[index as int].data matches Some(d2)
                && d2.vmxon.physical_address != 0
                && d2.vmxon.physical_address == final(hw).translation(d2.vmxon.va)
                && d2.vmxon.revision_id == spec_sanitize_revision_id(old(hw).revision_id())
                && d2.vmxon.revision_id & REVISION_ID_SHADOW_BIT == 0
                && final(hw).ops() == old(hw).ops().push(
                    VmxOp::Vmxon { pa: d2.vmxon.physical_address })
            ),
            // with the bundle already present, the translation failure occurs
            // exactly on the zero sentinel, translations are untouched, and
            // the other regions are kept as they were
            old(self).vcpu_table@[index as int].data matches Some(d) ==> (
                (r == Err::<(), HypervisorError>(HypervisorError::AddressTranslationFailure)
                    <==> old(hw).translation(d.vmxon.va) == 0)
                && same_translations(*old(hw), *final(hw))
                && (!(r == Err::<(), HypervisorError>(
                    HypervisorError::AddressTranslationFailure)) ==> (
                    final(self).vcpu_table@[index as int].data matches Some(d2)
                    && d2.vmxon.va == d.vmxon.va
                    && d2.vmcs == d.vmcs
                    && d2.msr_bitmap == d.msr_bitmap
                ))
            ),
    {
        let mut vcpu = self.vcpu_table.remove(index);
        let mut d = match vcpu.data {
            Some(existing) => existing,
            None => VcpuData::allocate_regions(hw),
        };
        let result = match d.init_vmxon(hw) {
            Ok(()) => {
                vcpu.data = Some(d);
                Ok(())
            },
            Err(e) => {
                if !matches!(e, HypervisorError::AddressTranslationFailure) {
                    vcpu.data = Some(d);
                }
                Err(e)
            },
        };
        self.vcpu_table.insert(index, vcpu);
        result
    }

    /// Resolve and cache the physical address of the processor's VMCS
    /// region, stamp its header with the sanitized revision identifier
    /// (bit 31 forced to 0), and execute VMPTRLD at that physical address,
    /// allocating the processor's region bundle first if it has none yet.
    ///
    /// Must run after `init_vmxon` for the same processor. A zero
    /// translation fails with `AddressTranslationFailure` before any
    /// hardware instruction runs; an instruction failure is propagated as
    /// `InstructionFailure(Vmptrld)` with the resolved region kept.
    pub fn init_vmcs<H: HardwareOps>(&mut self, hw: &mut H, index: usize) -> (r: Result<
        (),
        HypervisorError,
    >)
        requires
            index < old(self).vcpu_table@.len(),
        ensures
            r is Ok || r == Err::<(), HypervisorError>(
                HypervisorError::AddressTranslationFailure) || r == Err::<(),
                HypervisorError>(HypervisorError::InstructionFailure(VmxInstruction::Vmptrld)),
            final(self).processor_count == old(self).processor_count,
            final(self).vcpu_table@.len() == old(self).vcpu_table@.len(),
            forall|i: int|
                0 <= i < old(self).vcpu_table@.len() && i != index
                    ==> final(self).vcpu_table@[i] == old(self).vcpu_table@[i],
            final(self).vcpu_table@[index as int].index
                == old(self).vcpu_table@[index as int].index,
            final(self).vcpu_table@[index as int].virtualization_state
                == old(self).vcpu_table@[index as int].virtualization_state,
            same_registers(*old(hw), *final(hw)),
            same_machine_statics(*old(hw), *final(hw)),
            r == Err::<(), HypervisorError>(HypervisorError::AddressTranslationFailure) ==> (
                final(hw).ops() == old(hw).ops()
                && final(self).vcpu_table@[index as int]
                    == old(self).vcpu_table@[index as int]
            ),
            !(r == Err::<(), HypervisorError>(HypervisorError::AddressTranslationFailure)) ==> (
                final(self).vcpu_table@[index as int].data matches Some(d2)
                && d2.vmcs.physical_address != 0
                && d2.vmcs.physical_address == final(hw).translation(d2.vmcs.va)
                && d2.vmcs.revision_id == spec_sanitize_revision_id(old(hw).revision_id())
                && d2.vmcs.revision_id & REVISION_ID_SHADOW_BIT == 0
                && final(hw).ops() == old(hw).ops().push(
                    VmxOp::Vmptrld { pa: d2.vmcs.physical_address })
            ),
            // with the bundle already present, the translation failure occurs
            // exactly on the zero sentinel, translations are untouched, and
            // the other regions are kept as they were
            old(self).vcpu_table@[index as int].data matches Some(d) ==> (
                (r == Err::<(), HypervisorError>(HypervisorError::AddressTranslationFailure)
                    <==> old(hw).translation(d.vmcs.va) == 0)
                && same_translations(*old(hw), *final(hw))
                && (!(r == Err::<(), HypervisorError>(
                    HypervisorError::AddressTranslationFailure)) ==> (
                    final(self).vcpu_table@[index as int].data matches Some(d2)
                    && d2.vmcs.va == d.vmcs.va
                    && d2.vmxon == d.vmxon
                    && d2.msr_bitmap == d.msr_bitmap
                ))
            ),
    {
        let mut vcpu = self.vcpu_table.remove(index);
        let mut d = match vcpu.data {
            Some(existing) => existing,
            None => VcpuData::allocate_regions(hw),
        };
        let result = match d.init_vmcs(hw) {
            Ok(()) => {
                vcpu.data = Some(d);
                Ok(())
            },
            Err(e) => {
                if !matches!(e, HypervisorError::AddressTranslationFailure) {
                    vcpu.data = Some(d);
                }
                Err(e)
            },
        };
        self.vcpu_table.insert(index, vcpu);
        result
    }

    /// Enable VMX operation for the current processor: set CR4's VMX-enable
    /// bit, then run the feature-control lock procedure. Must precede VMXON.
    pub fn enable_vmx_operation<H: HardwareOps>(&self, hw: &mut H) -> (r: Result<
        (),
        HypervisorError,
    >)
        ensures
            final(hw).cr4() == (old(hw).cr4() | CR4_VMX_ENABLE),
            final(hw).cr0() == old(hw).cr0(),
            same_machine_statics(*old(hw), *final(hw)),
            same_translations(*old(hw), *final(hw)),
            final(hw).ops() == old(hw).ops(),
            r is Ok || r == Err::<(), HypervisorError>(HypervisorError::FirmwareLockViolation),
            (r == Err::<(), HypervisorError>(HypervisorError::FirmwareLockViolation)) <==> (
                old(hw).feature_control() & VMX_LOCK_BIT != 0
                && old(hw).feature_control() & VMXON_OUTSIDE_SMX == 0
            ),
            old(hw).feature_control() & VMX_LOCK_BIT == 0 ==> final(hw).feature_control()
                == (old(hw).feature_control() | VMX_LOCK_BIT | VMXON_OUTSIDE_SMX),
            old(hw).feature_control() & VMX_LOCK_BIT != 0 ==> final(hw).feature_control()
                == old(hw).feature_control(),
    {
        support::enable_vmx_operation(hw)
    }

    /// Force CR0 and then CR4 into the hardware-mandated envelope for the
    /// current processor. Unconditional, side-effect only.
    pub fn adjust_control_registers<H: HardwareOps>(&self, hw: &mut H)
        ensures
            final(hw).cr0() == spec_apply_fixed_masks(
                old(hw).cr0(), old(hw).cr0_fixed0(), old(hw).cr0_fixed1()),
            final(hw).cr4() == spec_apply_fixed_masks(
                old(hw).cr4(), old(hw).cr4_fixed0(), old(hw).cr4_fixed1()),
            final(hw).feature_control() == old(hw).feature_control(),
            same_machine_statics(*old(hw), *final(hw)),
            same_translations(*old(hw), *final(hw)),
            final(hw).ops() == old(hw).ops(),
    {
        support::adjust_control_registers(hw)
    }
}

} // verus!
