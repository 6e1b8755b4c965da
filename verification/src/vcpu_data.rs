use vstd::prelude::*;

use crate::error::HypervisorError;
use crate::error::VmxInstruction;
use crate::hardware::HardwareOps;
use crate::hardware::VmxOp;
use crate::hardware::same_machine_statics;
use crate::hardware::same_registers;
use crate::hardware::same_translations;
use crate::support::REVISION_ID_SHADOW_BIT;
use crate::support::sanitize_revision_id;
use crate::support::spec_sanitize_revision_id;

verus! {

/// One naturally aligned 4 KiB region consumed by VMX: its virtual address
/// as handed out by the external allocator, the revision identifier stamped
/// into its header (meaningful for the VMXON and VMCS regions only), and the
/// cached result of resolving its physical address (0 until resolved; 0 is
/// never a legitimate cached value).
#[derive(Clone, Copy, Debug, PartialEq, Eq, Structural)]
pub struct Region {
    pub va: u64,
    pub revision_id: u32,
    pub physical_address: u64,
}

impl Region {
    /// The region sits on one page: nonzero, naturally 4 KiB-aligned
    /// virtual address, so it cannot cross a page boundary.
    pub open spec fn page_backed(&self) -> bool {
        self.va != 0 && self.va % 4096 == 0
    }

    /// The physical address has been resolved and cached.
    pub open spec fn resolved(&self) -> bool {
        self.physical_address != 0
    }
}

/// The per-processor region bundle: VMXON region, VMCS region and MSR bitmap
/// region. Allocation of the pages is delegated to the external allocator;
/// this type validates the allocator's contract, resolves and caches each
/// region's physical address, and stamps the revision-id headers before the
/// regions are handed to hardware instructions.
#[derive(Clone, Copy, Debug, PartialEq, Eq, Structural)]
pub struct VcpuData {
    pub vmxon: Region,
    pub vmcs: Region,
    pub msr_bitmap: Region,
}

impl VcpuData {
    /// All three regions are page-backed.
    pub open spec fn page_backed(&self) -> bool {
        self.vmxon.page_backed() && self.vmcs.page_backed() && self.msr_bitmap.page_backed()
    }

    /// Allocate the three 4 KiB regions, in the order VMXON region, VMCS
    /// region, MSR bitmap region. No header is stamped and no physical
    /// address is resolved yet.
    pub fn allocate_regions<H: HardwareOps>(hw: &mut H) -> (d: VcpuData)
        ensures
            d.page_backed(),
            d.vmxon.revision_id == 0 && d.vmxon.physical_address == 0,
            d.vmcs.revision_id == 0 && d.vmcs.physical_address == 0,
            d.msr_bitmap.revision_id == 0 && d.msr_bitmap.physical_address == 0,
            same_registers(*old(hw), *final(hw)),
            same_machine_statics(*old(hw), *final(hw)),
            final(hw).ops() == old(hw).ops(),
            forall|v: u64|
                #![trigger final(hw).translation(v)]
                #![trigger old(hw).translation(v)]
                (v != d.vmxon.va && v != d.vmcs.va && v != d.msr_bitmap.va)
                    ==> final(hw).translation(v) == old(hw).translation(v),
    {
        let vmxon_va = hw.alloc_page();
        let vmcs_va = hw.alloc_page();
        let msr_bitmap_va = hw.alloc_page();
        VcpuData {
            vmxon: Region { va: vmxon_va, revision_id: 0, physical_address: 0 },
            vmcs: Region { va: vmcs_va, revision_id: 0, physical_address: 0 },
            msr_bitmap: Region { va: msr_bitmap_va, revision_id: 0, physical_address: 0 },
        }
    }

    /// Resolve and cache the MSR bitmap region's physical address. Fails
    /// with `AddressTranslationFailure`, caching nothing, exactly when the
    /// translation returns the zero sentinel. No other side effects.
    pub fn init_msr_bitmap<H: HardwareOps>(&mut self, hw: &H) -> (r: Result<(), HypervisorError>)
        ensures
            hw.translation(old(self).msr_bitmap.va) == 0 ==> (
                r == Err::<(), HypervisorError>(HypervisorError::AddressTranslationFailure)
                && *final(self) == *old(self)
            ),
            hw.translation(old(self).msr_bitmap.va) != 0 ==> (
                r is Ok
                && final(self).msr_bitmap.physical_address
                    == hw.translation(old(self).msr_bitmap.va)
                && final(self).msr_bitmap.va == old(self).msr_bitmap.va
                && final(self).msr_bitmap.revision_id == old(self).msr_bitmap.revision_id
                && final(self).vmxon == old(self).vmxon
                && final(self).vmcs == old(self).vmcs
            ),
    {
        let pa = hw.translate(self.msr_bitmap.va);
        if pa == 0 {
            return Err(HypervisorError::AddressTranslationFailure);
        }
        self.msr_bitmap.physical_address = pa;
        Ok(())
    }

    /// Resolve and cache the VMXON region's physical address, stamp its
    /// header with the sanitized revision identifier (bit 31 forced to 0),
    /// and execute VMXON at that physical address.
    ///
    /// A zero translation fails with `AddressTranslationFailure` before any
    /// hardware instruction runs. Otherwise the region is cached and stamped,
    /// VMXON is executed exactly once, and an instruction failure is
    /// propagated as `InstructionFailure(Vmxon)`.
    pub fn init_vmxon<H: HardwareOps>(&mut self, hw: &mut H) -> (r: Result<(), HypervisorError>)
        ensures
            old(hw).translation(old(self).vmxon.va) == 0 ==> (
                r == Err::<(), HypervisorError>(HypervisorError::AddressTranslationFailure)
                && *final(self) == *old(self)
                && *final(hw) == *old(hw)
            ),
            old(hw).translation(old(self).vmxon.va) != 0 ==> (
                (r is Ok
                    || r == Err::<(), HypervisorError>(
                        HypervisorError::InstructionFailure(VmxInstruction::Vmxon)))
                && final(self).vmxon.physical_address == old(hw).translation(old(self).vmxon.va)
                && final(self).vmxon.va == old(self).vmxon.va
                && final(self).vmxon.revision_id == spec_sanitize_revision_id(old(hw).revision_id())
                && final(self).vmxon.revision_id & REVISION_ID_SHADOW_BIT == 0
                && final(self).vmcs == old(self).vmcs
                && final(self).msr_bitmap == old(self).msr_bitmap
                && final(hw).ops() == old(hw).ops().push(
                    VmxOp::Vmxon { pa: old(hw).translation(old(self).vmxon.va) })
                && same_registers(*old(hw), *final(hw))
                && same_machine_statics(*old(hw), *final(hw))
                && same_translations(*old(hw), *final(hw))
            ),
    {
        let pa = hw.translate(self.vmxon.va);
        if pa == 0 {
            return Err(HypervisorError::AddressTranslationFailure);
        }
        self.vmxon.physical_address = pa;
        let raw = hw.vmcs_revision_id();
        self.vmxon.revision_id = sanitize_revision_id(raw);
        if hw.vmxon(pa) {
            Ok(())
        } else {
            Err(HypervisorError::InstructionFailure(VmxInstruction::Vmxon))
        }
    }

    /// Resolve and cache the VMCS region's physical address, stamp its
    /// header with the sanitized revision identifier (bit 31 forced to 0),
    /// and execute VMPTRLD at that physical address.
    ///
    /// A zero translation fails with `AddressTranslationFailure` before any
    /// hardware instruction runs. Otherwise the region is cached and stamped,
    /// VMPTRLD is executed exactly once, and an instruction failure is
    /// propagated as `InstructionFailure(Vmptrld)`.
    pub fn init_vmcs<H: HardwareOps>(&mut self, hw: &mut H) -> (r: Result<(), HypervisorError>)
        ensures
            old(hw).translation(old(self).vmcs.va) == 0 ==> (
                r == Err::<(), HypervisorError>(HypervisorError::AddressTranslationFailure)
                && *final(self) == *old(self)
                && *final(hw) == *old(hw)
            ),
            old(hw).translation(old(self).vmcs.va) != 0 ==> (
                (r is Ok
                    || r == Err::<(), HypervisorError>(
                        HypervisorError::InstructionFailure(VmxInstruction::Vmptrld)))
                && final(self).vmcs.physical_address == old(hw).translation(old(self).vmcs.va)
                && final(self).vmcs.va == old(self).vmcs.va
                && final(self).vmcs.revision_id == spec_sanitize_revision_id(old(hw).revision_id())
                && final(self).vmcs.revision_id & REVISION_ID_SHADOW_BIT == 0
                && final(self).vmxon == old(self).vmxon
                && final(self).msr_bitmap == old(self).msr_bitmap
                && final(hw).ops() == old(hw).ops().push(
                    VmxOp::Vmptrld { pa: old(hw).translation(old(self).vmcs.va) })
                && same_registers(*old(hw), *final(hw))
                && same_machine_statics(*old(hw), *final(hw))
                && same_translations(*old(hw), *final(hw))
            ),
    {
        let pa = hw.translate(self.vmcs.va);
        if pa == 0 {
            return Err(HypervisorError::AddressTranslationFailure);
        }
        self.vmcs.physical_address = pa;
        let raw = hw.vmcs_revision_id();
        self.vmcs.revision_id = sanitize_revision_id(raw);
        if hw.vmptrld(pa) {
            Ok(())
        } else {
            Err(HypervisorError::InstructionFailure(VmxInstruction::Vmptrld))
        }
    }
}

} // verus!
