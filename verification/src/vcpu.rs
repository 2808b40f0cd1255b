//! The state of a guest hart while the guest does not run.

use vstd::prelude::*;
use crate::regs::GeneralPurposeRegisters;

verus! {

/// A vCPU as a mathematical value.
pub struct VCpuView {
    /// The guest's general purpose registers.
    pub gprs: Seq<usize>,
    /// Guest virtual address of the instruction at which the guest goes on.
    pub pc: usize,
    /// Root of the guest's second-stage address translation.
    pub page_map: usize,
}

/// The guest program counter `len` bytes after `pc`. It wraps around at the end
/// of the address space, as the hart's own does.
pub open spec fn pc_after(pc: usize, len: usize) -> usize {
    if pc + len <= usize::MAX {
        (pc + len) as usize
    } else {
        (pc + len - usize::MAX - 1) as usize
    }
}

/// The saved context of one guest hart.
#[derive(Clone, Copy, Debug)]
pub struct VCpu {
    gprs: GeneralPurposeRegisters,
    pc: usize,
    page_map: usize,
}

impl View for VCpu {
    type V = VCpuView;

    closed spec fn view(&self) -> VCpuView {
        VCpuView { gprs: self.gprs@, pc: self.pc, page_map: self.page_map }
    }
}

impl VCpu {
    /// A vCPU that starts at `entry` with all registers zero and no address
    /// translation installed.
    pub fn new(entry: usize) -> (vcpu: Self)
        ensures
            vcpu@.gprs == Seq::new(32, |i: int| 0usize),
            vcpu@.pc == entry,
            vcpu@.page_map == 0,
    {
        VCpu { gprs: GeneralPurposeRegisters::new(), pc: entry, page_map: 0 }
    }

    /// Installs `token` as the root of the guest's address translation.
    pub fn init_page_map(&mut self, token: usize)
        ensures
            final(self)@ == (VCpuView { page_map: token, ..old(self)@ }),
    {
        self.page_map = token;
    }

    /// Root of the guest's address translation.
    pub fn page_map(&self) -> (token: usize)
        ensures
            token == self@.page_map,
    {
        self.page_map
    }

    /// Address of the instruction at which the guest goes on.
    pub fn pc(&self) -> (pc: usize)
        ensures
            pc == self@.pc,
    {
        self.pc
    }

    /// Records the state in which the guest stopped running.
    pub fn save_exit(&mut self, gprs: &GeneralPurposeRegisters, pc: usize)
        ensures
            final(self)@ == (VCpuView { gprs: gprs@, pc, ..old(self)@ }),
    {
        self.gprs = *gprs;
        self.pc = pc;
    }

    /// Copies the guest's registers into `dst`.
    pub fn save_gprs(&self, dst: &mut GeneralPurposeRegisters)
        ensures
            final(dst)@ == self@.gprs,
    {
        *dst = self.gprs;
    }

    /// Replaces the guest's registers by `src`.
    pub fn restore_gprs(&mut self, src: &GeneralPurposeRegisters)
        ensures
            final(self)@ == (VCpuView { gprs: src@, ..old(self)@ }),
    {
        self.gprs = *src;
    }

    /// Moves the guest's program counter `len` bytes on.
    pub fn advance_pc(&mut self, len: usize)
        ensures
            final(self)@ == (VCpuView { pc: pc_after(old(self)@.pc, len), ..old(self)@ }),
    {
        self.pc = self.pc.wrapping_add(len);
    }
}

/// The vCPUs of one virtual machine. A vCPU is known by its position.
pub struct VmCpus {
    inner: Vec<VCpu>,
}

impl View for VmCpus {
    type V = Seq<VCpuView>;

    closed spec fn view(&self) -> Seq<VCpuView> {
        self.inner@.map_values(|vcpu: VCpu| vcpu@)
    }
}

impl VmCpus {
    /// A set without vCPUs.
    pub fn new() -> (vcpus: Self)
        ensures
            vcpus@ == Seq::<VCpuView>::empty(),
    {
        let vcpus = VmCpus { inner: Vec::new() };
        assert(vcpus@ =~= Seq::<VCpuView>::empty());
        vcpus
    }

    /// Adds `vcpu` behind the ones already there and returns its position.
    pub fn add_vcpu(&mut self, vcpu: VCpu) -> (vcpu_id: usize)
        ensures
            final(self)@ == old(self)@.push(vcpu@),
            vcpu_id == old(self)@.len(),
    {
        let vcpu_id: usize = self.inner.len();
        self.inner.push(vcpu);
        assert(self@ =~= old(self)@.push(vcpu@));
        vcpu_id
    }

    /// Number of vCPUs.
    pub fn len(&self) -> (n: usize)
        ensures
            n == self@.len(),
    {
        self.inner.len()
    }

    /// The vCPU at position `vcpu_id`, if there is one.
    pub fn get_vcpu(&self, vcpu_id: usize) -> (vcpu: Option<&VCpu>)
        ensures
            vcpu is Some <==> vcpu_id < self@.len(),
            vcpu matches Some(v) ==> v@ == self@[vcpu_id as int],
    {
        if vcpu_id < self.inner.len() {
            Some(&self.inner[vcpu_id])
        } else {
            None
        }
    }

    /// Replaces the vCPU at position `vcpu_id`.
    pub fn set_vcpu(&mut self, vcpu_id: usize, vcpu: VCpu)
        requires
            vcpu_id < old(self)@.len(),
        ensures
            final(self)@ == old(self)@.update(vcpu_id as int, vcpu@),
    {
        self.inner[vcpu_id] = vcpu;
        assert(self@ =~= old(self)@.update(vcpu_id as int, vcpu@));
    }
}

} // verus!
