use vstd::prelude::*;

use crate::hardware::HardwareOps;
use crate::hardware::VmxOp;

verus! {

/// Physical-frame offset the mock applies to a mapped page by default.
pub const MOCK_PHYS_BASE: u64 = 0x1_0000_0000;

/// The deterministic in-memory machine used by the test suite: a plain
/// record of the registers, the fixed-mask MSRs, a bump allocator handing
/// out pages at 4096, 8192, ..., and configurable results for translation
/// and for each VMX instruction.
///
/// The n-th page handed out (1-based) sits at virtual address `n * 4096`.
/// Its translation is `page_frames[n - 1]` when that entry exists (0 there
/// makes the translation fail), and `va + MOCK_PHYS_BASE` otherwise. The
/// call counters let a test observe which privileged operations ran.
pub struct MockHardware {
    pub feature_control: u64,
    pub cr0: u64,
    pub cr4: u64,
    pub cr0_fixed0: u64,
    pub cr0_fixed1: u64,
    pub cr4_fixed0: u64,
    pub cr4_fixed1: u64,
    pub revision_id: u32,
    pub processor_count: u32,
    /// Pages handed out so far by the bump allocator.
    pub alloc_count: u32,
    /// Configured physical frame of the n-th allocated page; 0 fails.
    pub page_frames: Vec<u64>,
    pub vmxon_result: bool,
    pub vmptrld_result: bool,
    pub vmlaunch_result: bool,
    pub vmxoff_result: bool,
    pub feature_control_writes: u32,
    pub vmxon_calls: u32,
    pub vmptrld_calls: u32,
    pub vmlaunch_calls: u32,
    pub vmxoff_calls: u32,
    pub op_log: Ghost<Seq<VmxOp>>,
}

impl MockHardware {
    /// A machine with every register zero, no pages handed out, no
    /// configured translations, and every VMX instruction succeeding.
    pub fn new() -> (r: MockHardware)
        ensures
            r.feature_control() == 0,
            r.cr0() == 0,
            r.cr4() == 0,
            r.cr0_fixed0() == 0,
            r.cr0_fixed1() == 0xFFFF_FFFF_FFFF_FFFFu64,
            r.cr4_fixed0() == 0,
            r.cr4_fixed1() == 0xFFFF_FFFF_FFFF_FFFFu64,
            r.revision_id() == 0,
            r.proc_count() == 1,
            r.ops() == Seq::<VmxOp>::empty(),
            r.alloc_count == 0,
            r.page_frames@.len() == 0,
            r.vmxon_result && r.vmptrld_result && r.vmlaunch_result && r.vmxoff_result,
            r.vmxon_calls == 0 && r.vmptrld_calls == 0 && r.vmlaunch_calls == 0
                && r.vmxoff_calls == 0 && r.feature_control_writes == 0,
    {
        MockHardware {
            feature_control: 0,
            cr0: 0,
            cr4: 0,
            cr0_fixed0: 0,
            cr0_fixed1: 0xFFFF_FFFF_FFFF_FFFF,
            cr4_fixed0: 0,
            cr4_fixed1: 0xFFFF_FFFF_FFFF_FFFF,
            revision_id: 0,
            processor_count: 1,
            alloc_count: 0,
            page_frames: Vec::new(),
            vmxon_result: true,
            vmptrld_result: true,
            vmlaunch_result: true,
            vmxoff_result: true,
            feature_control_writes: 0,
            vmxon_calls: 0,
            vmptrld_calls: 0,
            vmlaunch_calls: 0,
            vmxoff_calls: 0,
            op_log: Ghost(Seq::empty()),
        }
    }

    /// Replace the configured physical frames of the allocated pages;
    /// every other part of the machine is untouched.
    pub fn set_page_frames(&mut self, frames: Vec<u64>)
        ensures
            *final(self) == (MockHardware { page_frames: frames, ..*old(self) }),
    {
        self.page_frames = frames;
    }
}

impl HardwareOps for MockHardware {
    open spec fn feature_control(&self) -> u64 {
        self.feature_control
    }

    open spec fn cr0(&self) -> u64 {
        self.cr0
    }

    open spec fn cr4(&self) -> u64 {
        self.cr4
    }

    open spec fn cr0_fixed0(&self) -> u64 {
        self.cr0_fixed0
    }

    open spec fn cr0_fixed1(&self) -> u64 {
        self.cr0_fixed1
    }

    open spec fn cr4_fixed0(&self) -> u64 {
        self.cr4_fixed0
    }

    open spec fn cr4_fixed1(&self) -> u64 {
        self.cr4_fixed1
    }

    open spec fn revision_id(&self) -> u32 {
        self.revision_id
    }

    open spec fn proc_count(&self) -> u32 {
        self.processor_count
    }

    open spec fn translation(&self, va: u64) -> u64 {
        if va != 0 && va % 4096 == 0 && va / 4096 <= self.alloc_count {
            if va / 4096 - 1 < self.page_frames@.len() {
                self.page_frames@[va / 4096 - 1]
            } else {
                (va + MOCK_PHYS_BASE) as u64
            }
        } else {
            0
        }
    }

    open spec fn ops(&self) -> Seq<VmxOp> {
        self.op_log@
    }

    fn processor_count(&self) -> (r: u32) {
        self.processor_count
    }

    fn read_feature_control(&self) -> (r: u64) {
        self.feature_control
    }

    fn write_feature_control(&mut self, value: u64) {
        self.feature_control = value;
        if self.feature_control_writes < 0xFFFF_FFFF {
            self.feature_control_writes = self.feature_control_writes + 1;
        }
    }

    fn read_cr0(&self) -> (r: u64) {
        self.cr0
    }

    fn write_cr0(&mut self, value: u64) {
        self.cr0 = value;
    }

    fn read_cr4(&self) -> (r: u64) {
        self.cr4
    }

    fn write_cr4(&mut self, value: u64) {
        self.cr4 = value;
    }

    fn read_cr0_fixed0(&self) -> (r: u64) {
        self.cr0_fixed0
    }

    fn read_cr0_fixed1(&self) -> (r: u64) {
        self.cr0_fixed1
    }

    fn read_cr4_fixed0(&self) -> (r: u64) {
        self.cr4_fixed0
    }

    fn read_cr4_fixed1(&self) -> (r: u64) {
        self.cr4_fixed1
    }

    fn vmcs_revision_id(&self) -> (r: u32) {
        self.revision_id
    }

    fn translate(&self, va: u64) -> (pa: u64) {
        if va == 0 || va % 4096 != 0 {
            return 0;
        }
        let page: u64 = va / 4096;
        if page == 0 || page > self.alloc_count as u64 {
            return 0;
        }
        let page_index: u64 = page - 1;
        if page_index < self.page_frames.len() as u64 {
            self.page_frames[page_index as usize]
        } else {
            proof {
                assert(va <= 4096 * 0xFFFF_FFFFu64) by (bit_vector)
                    requires
                        va % 4096 == 0 && va / 4096 <= 0xFFFF_FFFFu64,
                ;
            }
            va + MOCK_PHYS_BASE
        }
    }

    fn alloc_page(&mut self) -> (va: u64) {
        let ghost prev = *self;
        if self.alloc_count < 0xFFFF_FFFF {
            self.alloc_count = self.alloc_count + 1;
        }
        let count: u32 = self.alloc_count;
        let va: u64 = (count as u64) * 4096;
        proof {
            assert(va != 0 && va % 4096 == 0 && va / 4096 == count) by (bit_vector)
                requires
                    va == (count as u64) * 4096 && count >= 1,
            ;
            assert forall|v: u64|
                v != va implies #[trigger] self.translation(v) == prev.translation(v) by {
                if v != 0 && v % 4096 == 0 {
                    assert(v / 4096 != count || v == va) by (bit_vector)
                        requires
                            v % 4096 == 0 && va % 4096 == 0 && va / 4096 == count && v != va,
                    ;
                }
            }
        }
        va
    }

    fn vmxon(&mut self, pa: u64) -> (r: bool) {
        if self.vmxon_calls < 0xFFFF_FFFF {
            self.vmxon_calls = self.vmxon_calls + 1;
        }
        self.op_log = Ghost(self.op_log@.push(VmxOp::Vmxon { pa }));
        self.vmxon_result
    }

    fn vmptrld(&mut self, pa: u64) -> (r: bool) {
        if self.vmptrld_calls < 0xFFFF_FFFF {
            self.vmptrld_calls = self.vmptrld_calls + 1;
        }
        self.op_log = Ghost(self.op_log@.push(VmxOp::Vmptrld { pa }));
        self.vmptrld_result
    }

    fn vmlaunch(&mut self) -> (r: bool) {
        if self.vmlaunch_calls < 0xFFFF_FFFF {
            self.vmlaunch_calls = self.vmlaunch_calls + 1;
        }
        self.op_log = Ghost(self.op_log@.push(VmxOp::Vmlaunch));
        self.vmlaunch_result
    }

    fn vmxoff(&mut self) -> (r: bool) {
        if self.vmxoff_calls < 0xFFFF_FFFF {
            self.vmxoff_calls = self.vmxoff_calls + 1;
        }
        self.op_log = Ghost(self.op_log@.push(VmxOp::Vmxoff));
        self.vmxoff_result
    }
}

} // verus!
