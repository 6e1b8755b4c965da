use vstd::prelude::*;

verus! {

/// One executed VMX instruction, as recorded in the machine model's
/// instruction log.
pub enum VmxOp {
    Vmxon { pa: u64 },
    Vmptrld { pa: u64 },
    Vmlaunch,
    Vmxoff,
}

/// The instruction log's type, nameable by an outside binding that has to
/// spell out the model members the verifier erases.
pub type VmxOpLog = Seq<VmxOp>;

/// The narrow privileged-operations interface the bring-up core depends on:
/// control-register and MSR access, the VMX instructions, page allocation and
/// virtual-to-physical translation, processor enumeration, and the
/// revision-id query.
///
/// The spec functions model the machine: the mutable registers
/// (`feature_control`, `cr0`, `cr4`), the read-only identity (fixed-mask
/// MSRs, revision id, processor count), the translation map (0 is the
/// failure sentinel), and the log of VMX instructions executed so far.
/// Nothing is promised about whether an instruction succeeds: callers must
/// state what holds of every outcome.
pub trait HardwareOps: Sized {
    /// Model: the current IA32_FEATURE_CONTROL value.
    spec fn feature_control(&self) -> u64;

    /// Model: the current CR0 value.
    spec fn cr0(&self) -> u64;

    /// Model: the current CR4 value.
    spec fn cr4(&self) -> u64;

    /// Model: IA32_VMX_CR0_FIXED0 (bits VMX mandates be 1 in CR0).
    spec fn cr0_fixed0(&self) -> u64;

    /// Model: IA32_VMX_CR0_FIXED1 (bits allowed to be 1 in CR0).
    spec fn cr0_fixed1(&self) -> u64;

    /// Model: IA32_VMX_CR4_FIXED0.
    spec fn cr4_fixed0(&self) -> u64;

    /// Model: IA32_VMX_CR4_FIXED1.
    spec fn cr4_fixed1(&self) -> u64;

    /// Model: the raw hardware-reported VMCS revision identifier.
    spec fn revision_id(&self) -> u32;

    /// Model: the number of logical processors.
    spec fn proc_count(&self) -> u32;

    /// Model: the physical address that virtual address `va` resolves to;
    /// 0 denotes a failed or absent translation.
    spec fn translation(&self, va: u64) -> u64;

    /// Model: the VMX instructions executed so far, in order.
    spec fn ops(&self) -> Seq<VmxOp>;

    fn processor_count(&self) -> (r: u32)
        ensures
            r == self.proc_count(),
    ;

    fn read_feature_control(&self) -> (r: u64)
        ensures
            r == self.feature_control(),
    ;

    fn write_feature_control(&mut self, value: u64)
        ensures
            final(self).feature_control() == value,
            final(self).cr0() == old(self).cr0(),
            final(self).cr4() == old(self).cr4(),
            final(self).cr0_fixed0() == old(self).cr0_fixed0(),
            final(self).cr0_fixed1() == old(self).cr0_fixed1(),
            final(self).cr4_fixed0() == old(self).cr4_fixed0(),
            final(self).cr4_fixed1() == old(self).cr4_fixed1(),
            final(self).revision_id() == old(self).revision_id(),
            final(self).proc_count() == old(self).proc_count(),
            forall|v: u64|
                #![trigger final(self).translation(v)]
                #![trigger old(self).translation(v)]
                final(self).translation(v) == old(self).translation(v),
            final(self).ops() == old(self).ops(),
    ;

    fn read_cr0(&self) -> (r: u64)
        ensures
            r == self.cr0(),
    ;

    fn write_cr0(&mut self, value: u64)
        ensures
            final(self).cr0() == value,
            final(self).feature_control() == old(self).feature_control(),
            final(self).cr4() == old(self).cr4(),
            final(self).cr0_fixed0() == old(self).cr0_fixed0(),
            final(self).cr0_fixed1() == old(self).cr0_fixed1(),
            final(self).cr4_fixed0() == old(self).cr4_fixed0(),
            final(self).cr4_fixed1() == old(self).cr4_fixed1(),
            final(self).revision_id() == old(self).revision_id(),
            final(self).proc_count() == old(self).proc_count(),
            forall|v: u64|
                #![trigger final(self).translation(v)]
                #![trigger old(self).translation(v)]
                final(self).translation(v) == old(self).translation(v),
            final(self).ops() == old(self).ops(),
    ;

    fn read_cr4(&self) -> (r: u64)
        ensures
            r == self.cr4(),
    ;

    fn write_cr4(&mut self, value: u64)
        ensures
            final(self).cr4() == value,
            final(self).feature_control() == old(self).feature_control(),
            final(self).cr0() == old(self).cr0(),
            final(self).cr0_fixed0() == old(self).cr0_fixed0(),
            final(self).cr0_fixed1() == old(self).cr0_fixed1(),
            final(self).cr4_fixed0() == old(self).cr4_fixed0(),
            final(self).cr4_fixed1() == old(self).cr4_fixed1(),
            final(self).revision_id() == old(self).revision_id(),
            final(self).proc_count() == old(self).proc_count(),
            forall|v: u64|
                #![trigger final(self).translation(v)]
                #![trigger old(self).translation(v)]
                final(self).translation(v) == old(self).translation(v),
            final(self).ops() == old(self).ops(),
    ;

    fn read_cr0_fixed0(&self) -> (r: u64)
        ensures
            r == self.cr0_fixed0(),
    ;

    fn read_cr0_fixed1(&self) -> (r: u64)
        ensures
            r == self.cr0_fixed1(),
    ;

    fn read_cr4_fixed0(&self) -> (r: u64)
        ensures
            r == self.cr4_fixed0(),
    ;

    fn read_cr4_fixed1(&self) -> (r: u64)
        ensures
            r == self.cr4_fixed1(),
    ;

    fn vmcs_revision_id(&self) -> (r: u32)
        ensures
            r == self.revision_id(),
    ;

    fn translate(&self, va: u64) -> (pa: u64)
        ensures
            pa == self.translation(va),
    ;

    /// Hand out a naturally aligned, zeroed 4 KiB page from the external
    /// allocator. Only the fresh page's own translation may change; nothing
    /// is promised about whether that translation succeeds.
    fn alloc_page(&mut self) -> (va: u64)
        ensures
            va != 0,
            va % 4096 == 0,
            forall|v: u64|
                #![trigger final(self).translation(v)]
                #![trigger old(self).translation(v)]
                v != va ==> final(self).translation(v) == old(self).translation(v),
            final(self).feature_control() == old(self).feature_control(),
            final(self).cr0() == old(self).cr0(),
            final(self).cr4() == old(self).cr4(),
            final(self).cr0_fixed0() == old(self).cr0_fixed0(),
            final(self).cr0_fixed1() == old(self).cr0_fixed1(),
            final(self).cr4_fixed0() == old(self).cr4_fixed0(),
            final(self).cr4_fixed1() == old(self).cr4_fixed1(),
            final(self).revision_id() == old(self).revision_id(),
            final(self).proc_count() == old(self).proc_count(),
            final(self).ops() == old(self).ops(),
    ;

    fn vmxon(&mut self, pa: u64) -> (r: bool)
        ensures
            final(self).ops() == old(self).ops().push(VmxOp::Vmxon { pa }),
            final(self).feature_control() == old(self).feature_control(),
            final(self).cr0() == old(self).cr0(),
            final(self).cr4() == old(self).cr4(),
            final(self).cr0_fixed0() == old(self).cr0_fixed0(),
            final(self).cr0_fixed1() == old(self).cr0_fixed1(),
            final(self).cr4_fixed0() == old(self).cr4_fixed0(),
            final(self).cr4_fixed1() == old(self).cr4_fixed1(),
            final(self).revision_id() == old(self).revision_id(),
            final(self).proc_count() == old(self).proc_count(),
            forall|v: u64|
                #![trigger final(self).translation(v)]
                #![trigger old(self).translation(v)]
                final(self).translation(v) == old(self).translation(v),
    ;

    fn vmptrld(&mut self, pa: u64) -> (r: bool)
        ensures
            final(self).ops() == old(self).ops().push(VmxOp::Vmptrld { pa }),
            final(self).feature_control() == old(self).feature_control(),
            final(self).cr0() == old(self).cr0(),
            final(self).cr4() == old(self).cr4(),
            final(self).cr0_fixed0() == old(self).cr0_fixed0(),
            final(self).cr0_fixed1() == old(self).cr0_fixed1(),
            final(self).cr4_fixed0() == old(self).cr4_fixed0(),
            final(self).cr4_fixed1() == old(self).cr4_fixed1(),
            final(self).revision_id() == old(self).revision_id(),
            final(self).proc_count() == old(self).proc_count(),
            forall|v: u64|
                #![trigger final(self).translation(v)]
                #![trigger old(self).translation(v)]
                final(self).translation(v) == old(self).translation(v),
    ;

    fn vmlaunch(&mut self) -> (r: bool)
        ensures
            final(self).ops() == old(self).ops().push(VmxOp::Vmlaunch),
            final(self).feature_control() == old(self).feature_control(),
            final(self).cr0() == old(self).cr0(),
            final(self).cr4() == old(self).cr4(),
            final(self).cr0_fixed0() == old(self).cr0_fixed0(),
            final(self).cr0_fixed1() == old(self).cr0_fixed1(),
            final(self).cr4_fixed0() == old(self).cr4_fixed0(),
            final(self).cr4_fixed1() == old(self).cr4_fixed1(),
            final(self).revision_id() == old(self).revision_id(),
            final(self).proc_count() == old(self).proc_count(),
            forall|v: u64|
                #![trigger final(self).translation(v)]
                #![trigger old(self).translation(v)]
                final(self).translation(v) == old(self).translation(v),
    ;

    fn vmxoff(&mut self) -> (r: bool)
        ensures
            final(self).ops() == old(self).ops().push(VmxOp::Vmxoff),
            final(self).feature_control() == old(self).feature_control(),
            final(self).cr0() == old(self).cr0(),
            final(self).cr4() == old(self).cr4(),
            final(self).cr0_fixed0() == old(self).cr0_fixed0(),
            final(self).cr0_fixed1() == old(self).cr0_fixed1(),
            final(self).cr4_fixed0() == old(self).cr4_fixed0(),
            final(self).cr4_fixed1() == old(self).cr4_fixed1(),
            final(self).revision_id() == old(self).revision_id(),
            final(self).proc_count() == old(self).proc_count(),
            forall|v: u64|
                #![trigger final(self).translation(v)]
                #![trigger old(self).translation(v)]
                final(self).translation(v) == old(self).translation(v),
    ;
}

/// The three mutable registers the core touches are equal in both machine
/// values.
pub open spec fn same_registers<H: HardwareOps>(a: H, b: H) -> bool {
    &&& a.feature_control() == b.feature_control()
    &&& a.cr0() == b.cr0()
    &&& a.cr4() == b.cr4()
}

/// The read-only machine identity (fixed-mask MSRs, revision id, processor
/// count) is equal in both machine values.
pub open spec fn same_machine_statics<H: HardwareOps>(a: H, b: H) -> bool {
    &&& a.cr0_fixed0() == b.cr0_fixed0()
    &&& a.cr0_fixed1() == b.cr0_fixed1()
    &&& a.cr4_fixed0() == b.cr4_fixed0()
    &&& a.cr4_fixed1() == b.cr4_fixed1()
    &&& a.revision_id() == b.revision_id()
    &&& a.proc_count() == b.proc_count()
}

/// Every virtual address resolves alike in both machine values.
pub open spec fn same_translations<H: HardwareOps>(a: H, b: H) -> bool {
    forall|va: u64|
        #![trigger a.translation(va)]
        #![trigger b.translation(va)]
        a.translation(va) == b.translation(va)
}

} // verus!
