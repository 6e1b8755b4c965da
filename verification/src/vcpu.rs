use vstd::prelude::*;

use crate::error::HypervisorError;
use crate::error::VmxInstruction;
use crate::hardware::HardwareOps;
use crate::hardware::VmxOp;
use crate::hardware::same_machine_statics;
use crate::hardware::same_translations;
use crate::support;
use crate::support::CR4_VMX_ENABLE;
use crate::support::REVISION_ID_SHADOW_BIT;
use crate::support::VMXON_OUTSIDE_SMX;
use crate::support::VMX_LOCK_BIT;
use crate::support::spec_sanitize_revision_id;
use crate::vcpu_data::VcpuData;

verus! {

/// Lifecycle of one logical processor's virtualization. States advance
/// `NotVirtualized -> VmxEnabled -> RegionsReady -> VmxonDone -> VmcsLoaded
/// -> Launched`; `devirtualize_cpu` takes any state at or past `VmxonDone`
/// back to `NotVirtualized` via VMXOFF. A failure leaves the state at the
/// last completed milestone: a permitted, inspectable terminal state.
#[derive(Clone, Copy, Debug, PartialEq, Eq, Structural)]
pub enum VirtualizationState {
    NotVirtualized,
    VmxEnabled,
    RegionsReady,
    VmxonDone,
    VmcsLoaded,
    Launched,
}

/// Per-logical-processor handle: the processor index, the lifecycle state,
/// and the owned region bundle, constructed at most once (`data` is the
/// exactly-once guard: it stays `None` until one full region setup has
/// succeeded, and is never rebuilt afterwards).
#[derive(Clone, Copy, Debug)]
pub struct Vcpu {
    pub index: u32,
    pub virtualization_state: VirtualizationState,
    pub data: Option<VcpuData>,
}

impl Vcpu {
    /// Well-formedness: once the exactly-once guard holds a bundle, that
    /// bundle is fully validated: every region page-backed with a resolved
    /// (nonzero) physical address, and the VMXON/VMCS headers stamped with a
    /// revision id whose shadow-VMCS bit is clear. `new` establishes this
    /// (the guard is empty) and every method preserves it.
    pub open spec fn wf(&self) -> bool {
        self.data matches Some(d) ==> (
            d.page_backed()
            && d.vmxon.resolved()
            && d.vmcs.resolved()
            && d.msr_bitmap.resolved()
            && d.vmxon.revision_id & REVISION_ID_SHADOW_BIT == 0
            && d.vmcs.revision_id & REVISION_ID_SHADOW_BIT == 0
        )
    }

    /// Pure construction: stores the index, leaves the exactly-once guard
    /// empty. No hardware side effects.
    pub fn new(index: u32) -> (r: Result<Vcpu, HypervisorError>)
        ensures
            r matches Ok(v)
                && v.index == index
                && v.virtualization_state == VirtualizationState::NotVirtualized
                && v.data is None,
    {
        Ok(Vcpu {
            index,
            virtualization_state: VirtualizationState::NotVirtualized,
            data: None,
        })
    }

    /// The stored processor index. Pure accessor.
    pub fn id(&self) -> (r: u32)
        ensures
            r == self.index,
    {
        self.index
    }

    /// Virtualize this processor: enable VMX operation, adjust CR0/CR4 into
    /// the fixed-mask envelope, build the region bundle exactly once
    /// (allocating the three regions, resolving their physical addresses,
    /// stamping sanitized revision ids, executing VMXON then VMPTRLD), and
    /// execute VMLAUNCH.
    ///
    /// A repeated call on an already-built bundle re-runs only the register
    /// adjustments and VMLAUNCH: no region is re-allocated and no VMXON or
    /// VMPTRLD is re-executed. Any failure aborts the sequence where it
    /// stands and is surfaced unmodified; the bundle is committed only after
    /// a complete region setup, so a failed construction leaves the guard
    /// empty.
    pub fn virtualize_cpu<H: HardwareOps>(&mut self, hw: &mut H) -> (r: Result<
        (),
        HypervisorError,
    >)
        requires
            old(self).wf(),
        ensures
            final(self).wf(),
            final(self).index == old(self).index,
            same_machine_statics(*old(hw), *final(hw)),
            // the firmware lock refusal is decided by the feature-control value alone
            (r == Err::<(), HypervisorError>(HypervisorError::FirmwareLockViolation)) <==> (
                old(hw).feature_control() & VMX_LOCK_BIT != 0
                && old(hw).feature_control() & VMXON_OUTSIDE_SMX == 0
            ),
            // on that refusal CR4 already carries the VMX-enable bit, but nothing further ran
            r == Err::<(), HypervisorError>(HypervisorError::FirmwareLockViolation) ==> (
                final(hw).cr4() == (old(hw).cr4() | CR4_VMX_ENABLE)
                && final(hw).cr0() == old(hw).cr0()
                && final(hw).feature_control() == old(hw).feature_control()
                && final(hw).ops() == old(hw).ops()
                && same_translations(*old(hw), *final(hw))
                && *final(self) == *old(self)
            ),
            // otherwise both control registers were forced into the envelope
            !(r == Err::<(), HypervisorError>(HypervisorError::FirmwareLockViolation)) ==> (
                final(hw).cr0() == crate::support::spec_apply_fixed_masks(
                    old(hw).cr0(), old(hw).cr0_fixed0(), old(hw).cr0_fixed1())
                && final(hw).cr4() == crate::support::spec_apply_fixed_masks(
                    old(hw).cr4() | CR4_VMX_ENABLE, old(hw).cr4_fixed0(), old(hw).cr4_fixed1())
            ),
            // the bundle is built at most once: with it present, nothing is
            // re-allocated, no VMXON or VMPTRLD is re-executed
            old(self).data is Some ==> (
                final(self).data == old(self).data
                && same_translations(*old(hw), *final(hw))
            ),
            // and on such a repeated call VMLAUNCH runs exactly once, unless
            // the lock check refused first
            (old(self).data is Some && !(r == Err::<(), HypervisorError>(
                HypervisorError::FirmwareLockViolation))) ==> final(hw).ops()
                == old(hw).ops().push(VmxOp::Vmlaunch),
            old(self).data is Some && r is Err ==> final(self).virtualization_state
                == old(self).virtualization_state,
            // success reaches the terminal state with a fully validated bundle
            r is Ok ==> (
                final(self).data matches Some(d)
                && final(self).virtualization_state == VirtualizationState::Launched
                && d.page_backed()
                && d.vmxon.physical_address != 0
                && d.vmcs.physical_address != 0
                && d.msr_bitmap.physical_address != 0
                && d.vmxon.revision_id & REVISION_ID_SHADOW_BIT == 0
                && d.vmcs.revision_id & REVISION_ID_SHADOW_BIT == 0
            ),
            // the first successful pass pins the whole instruction sequence
            (r is Ok && old(self).data is None) ==> (
                final(self).data matches Some(d)
                && d.vmxon.revision_id == spec_sanitize_revision_id(old(hw).revision_id())
                && d.vmcs.revision_id == spec_sanitize_revision_id(old(hw).revision_id())
                && d.vmxon.physical_address == final(hw).translation(d.vmxon.va)
                && d.vmcs.physical_address == final(hw).translation(d.vmcs.va)
                && d.msr_bitmap.physical_address == final(hw).translation(d.msr_bitmap.va)
                && final(hw).ops() == old(hw).ops()
                    .push(VmxOp::Vmxon { pa: d.vmxon.physical_address })
                    .push(VmxOp::Vmptrld { pa: d.vmcs.physical_address })
                    .push(VmxOp::Vmlaunch)
            ),
            // a translation failure never reaches the failed region's
            // instruction and leaves the exactly-once guard empty; the state
            // names the last completed milestone
            r == Err::<(), HypervisorError>(HypervisorError::AddressTranslationFailure) ==> (
                old(self).data is None
                && final(self).data is None
                && ((final(hw).ops() == old(hw).ops()
                        && (final(self).virtualization_state
                                == VirtualizationState::VmxEnabled
                            || final(self).virtualization_state
                                == VirtualizationState::RegionsReady))
                    || (final(self).virtualization_state == VirtualizationState::VmxonDone
                        && (exists|pa: u64|
                            final(hw).ops() == old(hw).ops().push(VmxOp::Vmxon { pa }))))
            ),
            // a VMXON failure leaves the guard empty; neither VMPTRLD nor
            // VMLAUNCH was reached
            r == Err::<(), HypervisorError>(
                HypervisorError::InstructionFailure(VmxInstruction::Vmxon)) ==> (
                old(self).data is None
                && final(self).data is None
                && final(self).virtualization_state == VirtualizationState::RegionsReady
                && (exists|pa: u64|
                    final(hw).ops() == old(hw).ops().push(VmxOp::Vmxon { pa }))
            ),
            // a VMPTRLD failure leaves the guard empty; VMLAUNCH was not reached
            r == Err::<(), HypervisorError>(
                HypervisorError::InstructionFailure(VmxInstruction::Vmptrld)) ==> (
                old(self).data is None
                && final(self).data is None
                && final(self).virtualization_state == VirtualizationState::VmxonDone
                && (exists|a: u64, b: u64|
                    final(hw).ops() == old(hw).ops().push(VmxOp::Vmxon { pa: a }).push(
                        VmxOp::Vmptrld { pa: b }))
            ),
            // a VMLAUNCH failure on the first pass leaves the freshly built
            // bundle committed and inspectable
            (r == Err::<(), HypervisorError>(
                HypervisorError::InstructionFailure(VmxInstruction::Vmlaunch))
                && old(self).data is None) ==> (
                final(self).data is Some
                && final(self).virtualization_state == VirtualizationState::VmcsLoaded
                && (exists|a: u64, b: u64|
                    final(hw).ops() == old(hw).ops().push(VmxOp::Vmxon { pa: a }).push(
                        VmxOp::Vmptrld { pa: b }).push(VmxOp::Vmlaunch))
            ),
            r is Err ==> (
                r == Err::<(), HypervisorError>(HypervisorError::FirmwareLockViolation)
                || r == Err::<(), HypervisorError>(HypervisorError::AddressTranslationFailure)
                || r == Err::<(), HypervisorError>(
                    HypervisorError::InstructionFailure(VmxInstruction::Vmxon))
                || r == Err::<(), HypervisorError>(
                    HypervisorError::InstructionFailure(VmxInstruction::Vmptrld))
                || r == Err::<(), HypervisorError>(
                    HypervisorError::InstructionFailure(VmxInstruction::Vmlaunch))
            ),
    {
        support::enable_vmx_operation(hw)?;
        support::adjust_control_registers(hw);
        if self.data.is_none() {
            self.virtualization_state = VirtualizationState::VmxEnabled;
            let mut d = VcpuData::allocate_regions(hw);
            d.init_msr_bitmap(hw)?;
            self.virtualization_state = VirtualizationState::RegionsReady;
            d.init_vmxon(hw)?;
            self.virtualization_state = VirtualizationState::VmxonDone;
            d.init_vmcs(hw)?;
            self.data = Some(d);
            self.virtualization_state = VirtualizationState::VmcsLoaded;
        }
        if hw.vmlaunch() {
            self.virtualization_state = VirtualizationState::Launched;
            Ok(())
        } else {
            Err(HypervisorError::InstructionFailure(VmxInstruction::Vmlaunch))
        }
    }

    /// Leave VMX operation via VMXOFF. An instruction failure (as when VMX
    /// operation was never entered: a hardware-level fault) is propagated,
    /// not masked, and leaves the state unchanged.
    pub fn devirtualize_cpu<H: HardwareOps>(&mut self, hw: &mut H) -> (r: Result<
        (),
        HypervisorError,
    >)
        ensures
            final(hw).ops() == old(hw).ops().push(VmxOp::Vmxoff),
            final(hw).feature_control() == old(hw).feature_control(),
            final(hw).cr0() == old(hw).cr0(),
            final(hw).cr4() == old(hw).cr4(),
            same_machine_statics(*old(hw), *final(hw)),
            same_translations(*old(hw), *final(hw)),
            final(self).index == old(self).index,
            final(self).data == old(self).data,
            r is Ok || r == Err::<(), HypervisorError>(
                HypervisorError::InstructionFailure(VmxInstruction::Vmxoff)),
            r is Ok ==> final(self).virtualization_state
                == VirtualizationState::NotVirtualized,
            r is Err ==> final(self).virtualization_state
                == old(self).virtualization_state,
    {
        if hw.vmxoff() {
            self.virtualization_state = VirtualizationState::NotVirtualized;
            Ok(())
        } else {
            Err(HypervisorError::InstructionFailure(VmxInstruction::Vmxoff))
        }
    }
}

} // verus!
