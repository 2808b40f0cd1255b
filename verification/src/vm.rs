//! One virtual machine: its vCPUs, its interrupt controller, its console input
//! and its timer, and the handler that emulates what a guest exit asks for.
//!
//! The handler never touches the hardware. It is told what happened, changes
//! the machine's state, and says what has to be done next: operations on the
//! host hart, which it queues until the guest is about to run again, and an
//! [`ExitAction`].

use vstd::prelude::*;
use std::collections::VecDeque;
use crate::decode::{
    check_emulable_length,
    classify_instruction,
    decoded_access,
    decoder_input,
    has_emulable_length,
    instruction_length_of,
    MmioAccess,
};
use crate::error::{HyperError, HyperResult};
use crate::hostop::HostOp;
use crate::plic::{claim_context, PlicState, PlicView};
use crate::regs::{gpr_write, GeneralPurposeRegisters, GprIndex, GPR_COUNT};
use crate::sbi::{
    lemma_version_word_bounds,
    version_word,
    BaseFunction,
    HyperCallMsg,
    PmuFunction,
    RemoteFenceFunction,
    SbiReturn,
    SBI_ERR_NOT_SUPPORTED,
    SBI_NO_CHAR,
    SBI_SUCCESS,
};
use crate::vcpu::{pc_after, VCpu, VCpuView, VmCpus};
use crate::vmexit::{PrivilegeLevel, VmExitInfo};
use crate::vmm_trap::VmmTrap;

verus! {

/// Guest physical address of the interrupt controller's window.
pub const PLIC_BASE: usize = 0x0C00_0000;

/// The interrupt context through which the hypervisor claims on a guest's
/// behalf: supervisor mode of hart 0.
pub const IRQ_CONTEXT: usize = 1;

/// Scratch state of the exit handler. It is set up anew for every exit.
pub struct VMState {
    general_purpose_registers: GeneralPurposeRegisters,
    advance_pc: bool,
    instruction_length: usize,
}

impl VMState {
    /// The registers of the state.
    pub closed spec fn gprs(&self) -> Seq<usize> {
        self.general_purpose_registers@
    }

    /// Whether the guest's program counter is to move past the instruction.
    pub closed spec fn advance_pc(&self) -> bool {
        self.advance_pc
    }

    /// Length in bytes of the instruction that trapped.
    pub closed spec fn instruction_length(&self) -> usize {
        self.instruction_length
    }

    /// The state before any exit: registers zero, the program counter to stay,
    /// an instruction length of 4.
    pub fn new() -> (state: Self)
        ensures
            state.gprs() == Seq::new(GPR_COUNT as nat, |i: int| 0usize),
            !state.advance_pc(),
            state.instruction_length() == 4,
    {
        VMState {
            general_purpose_registers: GeneralPurposeRegisters::new(),
            advance_pc: false,
            instruction_length: 4,
        }
    }
}

/// What the caller of the exit handler has to do once an exit is handled.
#[derive(Clone, Copy, Debug, PartialEq, Eq, Structural)]
pub enum ExitAction {
    /// Restore the vCPU and run the guest again.
    Resume,
    /// Restore the vCPU and hand the trap to the scheduler.
    Yield(VmmTrap),
    /// Read the instruction at guest virtual address `inst_addr` from guest
    /// memory and pass it to [`VM::complete_page_fault`] with `fault_addr`.
    FetchInstruction { inst_addr: usize, fault_addr: usize },
    /// Claim the pending interrupt by a 32-bit volatile load from `claim_addr`
    /// in the real interrupt controller and pass it to [`VM::handle_irq`].
    ClaimInterrupt { claim_addr: usize },
}

/// A virtual machine as a mathematical value.
pub struct VmView {
    /// The vCPUs, by position.
    pub vcpus: Seq<VCpuView>,
    /// Root of the second-stage page table that the vCPUs are given.
    pub gpt_token: usize,
    /// The shadow interrupt controller.
    pub plic: PlicView,
    /// The handler's working copy of the guest registers.
    pub gprs: Seq<usize>,
    /// Whether the program counter is to move past the trapping instruction.
    pub advance_pc: bool,
    /// Length in bytes of the trapping instruction.
    pub instruction_length: usize,
    /// Console characters that wait for the guest, oldest first.
    pub input: Seq<usize>,
    /// The deadline that the guest last gave its timer.
    pub timer: u64,
    /// Host operations decided on and not yet handed out, oldest first.
    pub host_ops: Seq<HostOp>,
}

/// The low 32 bits of a register, as a store of a word writes them.
pub open spec fn low_word(val: usize) -> u32 {
    (val & 0xFFFF_FFFF) as u32
}

impl VmView {
    /// The machine with the vCPUs `vcpus` and the page table root `gpt_token`
    /// before anything happened: its interrupt controller sits at
    /// [`PLIC_BASE`], its working registers are zero, no console input and no
    /// host operation waits, and its timer has no deadline.
    pub open spec fn created(vcpus: Seq<VCpuView>, gpt_token: usize) -> VmView {
        VmView {
            vcpus,
            gpt_token,
            plic: PlicView::empty(PLIC_BASE),
            gprs: Seq::new(GPR_COUNT as nat, |i: int| 0usize),
            advance_pc: false,
            instruction_length: 4,
            input: Seq::empty(),
            timer: u64::MAX,
            host_ops: Seq::empty(),
        }
    }

    /// The invariant of a virtual machine: a sound interrupt controller, 32
    /// working registers, and an instruction length of 2 or 4.
    pub open spec fn wf(self) -> bool {
        &&& self.plic.wf()
        &&& self.gprs.len() == GPR_COUNT
        &&& (self.instruction_length == 2 || self.instruction_length == 4)
    }

    /// Register `idx` of the working copy.
    pub open spec fn reg(self, idx: GprIndex) -> usize {
        self.gprs[idx.spec_index()]
    }

    /// The machine with `val` written to register `idx` of the working copy.
    pub open spec fn with_reg(self, idx: GprIndex, val: usize) -> VmView {
        VmView { gprs: gpr_write(self.gprs, idx, val), ..self }
    }

    /// The machine with `op` queued behind the operations already waiting.
    pub open spec fn with_op(self, op: HostOp) -> VmView {
        VmView { host_ops: self.host_ops.push(op), ..self }
    }

    /// The machine at the start of the handling of an exit of vCPU `vcpu_id`,
    /// which stopped at `pc` with the registers `gprs`.
    pub open spec fn saved(self, vcpu_id: int, gprs: Seq<usize>, pc: usize) -> VmView {
        VmView {
            vcpus: self.vcpus.update(vcpu_id, VCpuView { gprs, pc, ..self.vcpus[vcpu_id] }),
            gprs,
            advance_pc: false,
            instruction_length: 4,
            ..self
        }
    }

    /// The machine once vCPU `vcpu_id` is ready to run again: it has the
    /// working registers, its program counter has moved past the instruction
    /// if that was asked for, and no host operation waits any more.
    pub open spec fn restored(self, vcpu_id: int) -> VmView {
        let vcpu = self.vcpus[vcpu_id];
        let pc = if self.advance_pc {
            pc_after(vcpu.pc, self.instruction_length)
        } else {
            vcpu.pc
        };
        VmView {
            vcpus: self.vcpus.update(vcpu_id, VCpuView { gprs: self.gprs, pc, ..vcpu }),
            host_ops: Seq::empty(),
            ..self
        }
    }
}

/// A virtual machine.
pub struct VM {
    vcpus: VmCpus,
    gpt_token: usize,
    plic: PlicState,
    state: VMState,
    input_buffer: VecDeque<usize>,
    timer: u64,
    host_ops: Vec<HostOp>,
}

impl View for VM {
    type V = VmView;

    closed spec fn view(&self) -> VmView {
        VmView {
            vcpus: self.vcpus@,
            gpt_token: self.gpt_token,
            plic: self.plic@,
            gprs: self.state.general_purpose_registers@,
            advance_pc: self.state.advance_pc,
            instruction_length: self.state.instruction_length,
            input: self.input_buffer@,
            timer: self.timer,
            host_ops: self.host_ops@,
        }
    }
}

impl VM {
    /// The invariant of a virtual machine: that of its value.
    pub open spec fn wf(&self) -> bool {
        self@.wf()
    }

    /// Creates a virtual machine with the vCPUs `vcpus` and a second-stage
    /// page table whose root is `gpt_token`. Its interrupt controller sits at
    /// [`PLIC_BASE`], no console input waits, and its timer has no deadline.
    /// This never fails.
    pub fn new(vcpus: VmCpus, gpt_token: usize) -> (r: HyperResult<Self>)
        ensures
            r is Ok,
            r matches Ok(vm) ==> vm.wf() && vm@ == VmView::created(vcpus@, gpt_token),
    {
        let vm = VM {
            vcpus,
            gpt_token,
            plic: PlicState::new(PLIC_BASE),
            state: VMState::new(),
            input_buffer: VecDeque::new(),
            timer: u64::MAX,
            host_ops: Vec::new(),
        };
        Ok(vm)
    }

    /// Gives vCPU `vcpu_id` the machine's second-stage page table.
    pub fn init_vcpu(&mut self, vcpu_id: usize)
        requires
            vcpu_id < old(self)@.vcpus.len(),
        ensures
            final(self)@ == (VmView {
                vcpus: old(self)@.vcpus.update(
                    vcpu_id as int,
                    VCpuView { page_map: old(self)@.gpt_token, ..old(self)@.vcpus[vcpu_id as int] },
                ),
                ..old(self)@
            }),
    {
        let token: usize = self.gpt_token;
        match self.vcpus.get_vcpu(vcpu_id) {
            Some(vcpu) => {
                let mut vcpu: VCpu = *vcpu;
                vcpu.init_page_map(token);
                self.vcpus.set_vcpu(vcpu_id, vcpu);
            },
            None => {},
        }
    }

    /// Number of vCPUs.
    pub fn vcpu_count(&self) -> (n: usize)
        ensures
            n == self@.vcpus.len(),
    {
        self.vcpus.len()
    }

    /// The vCPU at position `vcpu_id`, if there is one.
    pub fn vcpu(&self, vcpu_id: usize) -> (vcpu: Option<&VCpu>)
        ensures
            vcpu is Some <==> vcpu_id < self@.vcpus.len(),
            vcpu matches Some(v) ==> v@ == self@.vcpus[vcpu_id as int],
    {
        self.vcpus.get_vcpu(vcpu_id)
    }

    /// The shadow interrupt controller.
    pub fn plic(&self) -> (plic: &PlicState)
        ensures
            plic@ == self@.plic,
    {
        &self.plic
    }

    /// The handler's working copy of the guest registers.
    pub fn gprs(&self) -> (gprs: &GeneralPurposeRegisters)
        ensures
            gprs@ == self@.gprs,
    {
        &self.state.general_purpose_registers
    }

    /// Whether the program counter is to move past the trapping instruction.
    pub fn advance_pc(&self) -> (advance: bool)
        ensures
            advance == self@.advance_pc,
    {
        self.state.advance_pc
    }

    /// Length in bytes of the trapping instruction.
    pub fn instruction_length(&self) -> (len: usize)
        ensures
            len == self@.instruction_length,
    {
        self.state.instruction_length
    }

    /// The deadline that the guest last gave its timer; `u64::MAX` before it
    /// gave any.
    pub fn get_timer(&self) -> (timer: u64)
        ensures
            timer == self@.timer,
    {
        self.timer
    }

    /// Number of console characters that wait for the guest.
    pub fn input_len(&self) -> (n: usize)
        ensures
            n == self@.input.len(),
    {
        self.input_buffer.len()
    }

    /// Number of host operations that wait to be handed out.
    pub fn host_op_count(&self) -> (n: usize)
        ensures
            n == self@.host_ops.len(),
    {
        self.host_ops.len()
    }

    /// Puts a console character behind those that already wait for the guest.
    pub fn add_char_to_input_buffer(&mut self, c: usize)
        ensures
            final(self)@ == (VmView { input: old(self)@.input.push(c), ..old(self)@ }),
    {
        self.input_buffer.push_back(c);
    }

    /// Starts the handling of an exit of vCPU `vcpu_id`: records the program
    /// counter `pc` and the registers `gprs` with which the guest stopped,
    /// takes the registers as the working copy, and resets the scratch state.
    pub fn save_state(&mut self, vcpu_id: usize, gprs: &GeneralPurposeRegisters, pc: usize)
        requires
            old(self).wf(),
            vcpu_id < old(self)@.vcpus.len(),
        ensures
            final(self).wf(),
            final(self)@ == old(self)@.saved(vcpu_id as int, gprs@, pc),
    {
        self.state.advance_pc = false;
        self.state.instruction_length = 4;
        match self.vcpus.get_vcpu(vcpu_id) {
            Some(vcpu) => {
                let mut vcpu: VCpu = *vcpu;
                vcpu.save_exit(gprs, pc);
                vcpu.save_gprs(&mut self.state.general_purpose_registers);
                self.vcpus.set_vcpu(vcpu_id, vcpu);
            },
            None => {},
        }
        proof {
            gprs.lemma_len();
        }
    }

    /// Ends the handling of an exit of vCPU `vcpu_id`: gives the vCPU the
    /// working registers and, if the handler asked for it, moves its program
    /// counter past the trapping instruction. Returns the host operations that
    /// the handling queued, to be carried out before the guest runs.
    pub fn restore_state(&mut self, vcpu_id: usize) -> (ops: Vec<HostOp>)
        requires
            old(self).wf(),
            vcpu_id < old(self)@.vcpus.len(),
        ensures
            final(self).wf(),
            final(self)@ == old(self)@.restored(vcpu_id as int),
            ops@ == old(self)@.host_ops,
    {
        match self.vcpus.get_vcpu(vcpu_id) {
            Some(vcpu) => {
                let mut vcpu: VCpu = *vcpu;
                vcpu.restore_gprs(&self.state.general_purpose_registers);
                if self.state.advance_pc {
                    vcpu.advance_pc(self.state.instruction_length);
                }
                self.vcpus.set_vcpu(vcpu_id, vcpu);
            },
            None => {},
        }
        let mut ops: Vec<HostOp> = Vec::new();
        core::mem::swap(&mut self.host_ops, &mut ops);
        ops
    }
}

/// The trap that the handling of `msg` hands to the scheduler, if any: a guest
/// that programs its timer makes the scheduler arm the host's.
pub open spec fn ecall_trap(msg: HyperCallMsg) -> Option<VmmTrap> {
    match msg {
        HyperCallMsg::SetTimer(timer) => Some(VmmTrap::SetTimer(timer)),
        _ => None,
    }
}

impl VmView {
    /// The firmware's answer as the guest finds it in `a0` and `a1`.
    pub open spec fn seen_reply(self) -> SbiReturn {
        SbiReturn { error: self.reg(GprIndex::A0), value: self.reg(GprIndex::A1) }
    }

    /// The machine after a call that cannot fail answered `value`.
    pub open spec fn sbi_value(self, value: usize) -> VmView {
        self.with_reg(GprIndex::A1, value).with_reg(GprIndex::A0, SBI_SUCCESS)
    }

    /// The machine after the firmware's answer `ret` was passed on as it came.
    pub open spec fn sbi_return(self, ret: SbiReturn) -> VmView {
        self.with_reg(GprIndex::A0, ret.error).with_reg(GprIndex::A1, ret.value)
    }

    /// The machine after the guest's call `msg` was emulated, where `reply` is
    /// what the firmware answered to the call made on the guest's behalf. The
    /// calls that are settled without the firmware do not look at `reply`.
    pub open spec fn ecall_result(self, msg: HyperCallMsg, reply: SbiReturn) -> VmView {
        if !msg.is_supported() {
            self.with_reg(GprIndex::A0, SBI_ERR_NOT_SUPPORTED)
        } else {
            self.supported_ecall_result(msg, reply)
        }
    }

    /// [`VmView::ecall_result`] for a call that the hypervisor emulates.
    pub open spec fn supported_ecall_result(self, msg: HyperCallMsg, reply: SbiReturn) -> VmView {
        match msg {
            HyperCallMsg::Base(_) => self.sbi_value(reply.value),
            HyperCallMsg::GetChar => if self.input.len() > 0 {
                VmView {
                    input: self.input.drop_first(),
                    ..self.with_reg(GprIndex::A0, self.input[0])
                }
            } else {
                self.with_reg(GprIndex::A0, SBI_NO_CHAR)
            },
            HyperCallMsg::PutChar(c) => self.with_op(HostOp::PutChar(c)).with_reg(
                GprIndex::A0,
                SBI_SUCCESS,
            ),
            HyperCallMsg::SetTimer(timer) => VmView {
                timer,
                ..self.with_op(HostOp::ClearVstip).with_reg(GprIndex::A0, SBI_SUCCESS)
            },
            HyperCallMsg::Reset(_) => self.with_op(HostOp::SystemReset).with_reg(
                GprIndex::A0,
                SBI_SUCCESS,
            ),
            HyperCallMsg::RemoteFence(_) => self.sbi_return(reply),
            HyperCallMsg::PMU(PmuFunction::GetNumCounters) => self.sbi_value(reply.value),
            HyperCallMsg::PMU(_) => self.sbi_return(reply),
            HyperCallMsg::Ipi => self,
        }
    }
}

impl VM {
    /// Answers a call that cannot fail: `value` in `a1`, success in `a0`.
    fn set_sbi_value(&mut self, value: usize)
        requires
            old(self).wf(),
        ensures
            final(self).wf(),
            final(self)@ == old(self)@.sbi_value(value),
    {
        self.state.general_purpose_registers.set_reg(GprIndex::A1, value);
        self.state.general_purpose_registers.set_reg(GprIndex::A0, SBI_SUCCESS);
    }

    /// Passes the firmware's answer on: its status in `a0`, its value in `a1`.
    fn set_sbi_return(&mut self, ret: SbiReturn)
        requires
            old(self).wf(),
        ensures
            final(self).wf(),
            final(self)@ == old(self)@.sbi_return(ret),
    {
        self.state.general_purpose_registers.set_reg(GprIndex::A0, ret.error);
        self.state.general_purpose_registers.set_reg(GprIndex::A1, ret.value);
    }

    /// Emulates a base extension call by asking the firmware beneath. The
    /// guest finds success in `a0` and the firmware's answer in `a1`; nothing
    /// else changes.
    fn handle_base_function(&mut self, base: BaseFunction) -> (r: HyperResult<()>)
        requires
            old(self).wf(),
        ensures
            r is Ok,
            final(self).wf(),
            final(self)@ == old(self)@.sbi_value(final(self)@.reg(GprIndex::A1)),
            final(self)@.reg(GprIndex::A0) == SBI_SUCCESS,
            base is GetSpecificationVersion ==> final(self)@.reg(GprIndex::A1) <= 0x7fff_ffff,
    {
        let value: usize = match base {
            BaseFunction::GetSpecificationVersion => {
                let version = crate::firmware::get_spec_version();
                proof {
                    lemma_version_word_bounds(version.0, version.1);
                }
                version_word(version.0, version.1)
            },
            BaseFunction::GetImplementationID => sbi_rt::get_sbi_impl_id(),
            BaseFunction::GetImplementationVersion => sbi_rt::get_sbi_impl_version(),
            BaseFunction::ProbeSbiExtension(extension) => crate::firmware::probe_extension(
                extension as usize,
            ),
            BaseFunction::GetMachineVendorID => sbi_rt::get_mvendorid(),
            BaseFunction::GetMachineArchitectureID => sbi_rt::get_marchid(),
            BaseFunction::GetMachineImplementationID => sbi_rt::get_mimpid(),
        };
        self.set_sbi_value(value);
        Ok(())
    }

    /// Emulates a performance monitoring call by asking the firmware beneath.
    /// The number of counters is answered as a call that cannot fail; for the
    /// other functions the guest finds the firmware's status in `a0` and its
    /// value in `a1`. Nothing else changes.
    fn handle_pmu_function(&mut self, pmu: PmuFunction) -> (r: HyperResult<()>)
        requires
            old(self).wf(),
        ensures
            r is Ok,
            final(self).wf(),
            final(self)@ == old(self)@.ecall_result(
                HyperCallMsg::PMU(pmu),
                final(self)@.seen_reply(),
            ),
    {
        match pmu {
            PmuFunction::GetNumCounters => {
                let count: usize = sbi_rt::pmu_num_counters();
                self.set_sbi_value(count);
            },
            PmuFunction::GetCounterInfo(counter_index) => {
                let ret = crate::firmware::pmu_counter_get_info(counter_index as usize);
                self.set_sbi_return(ret);
            },
            PmuFunction::StopCounter { counter_index, counter_mask, stop_flags } => {
                let ret = crate::firmware::pmu_counter_stop(
                    counter_index as usize,
                    counter_mask as usize,
                    stop_flags as usize,
                );
                self.set_sbi_return(ret);
            },
        }
        Ok(())
    }

    /// Emulates a remote fence call by asking the firmware beneath. The guest
    /// finds the firmware's status in `a0` and its value in `a1`; nothing else
    /// changes.
    fn handle_rfnc_function(&mut self, rfnc: RemoteFenceFunction) -> (r: HyperResult<()>)
        requires
            old(self).wf(),
        ensures
            r is Ok,
            final(self).wf(),
            final(self)@ == old(self)@.sbi_return(final(self)@.seen_reply()),
    {
        let ret = match rfnc {
            RemoteFenceFunction::FenceI { hart_mask, hart_mask_base } => {
                crate::firmware::remote_fence_i(hart_mask as usize, hart_mask_base as usize)
            },
            RemoteFenceFunction::RemoteSFenceVMA { hart_mask, hart_mask_base, start_addr, size } => {
                crate::firmware::remote_sfence_vma(
                    hart_mask as usize,
                    hart_mask_base as usize,
                    start_addr as usize,
                    size as usize,
                )
            },
        };
        self.set_sbi_return(ret);
        Ok(())
    }

    /// Emulates the guest's call `msg`, given what the firmware answered to
    /// the call made on the guest's behalf. Returns the trap to hand to the
    /// scheduler, if the call asks for one.
    ///
    /// The status in `a0` is success for a call that is settled here, the
    /// firmware's status for a call that is passed on, a character or
    /// [`SBI_NO_CHAR`] for a console read, and [`SBI_ERR_NOT_SUPPORTED`] for
    /// a call that is not implemented.
    pub fn complete_ecall(&mut self, msg: HyperCallMsg, reply: SbiReturn) -> (trap: Option<VmmTrap>)
        requires
            old(self).wf(),
        ensures
            final(self).wf(),
            final(self)@ == old(self)@.ecall_result(msg, reply),
            trap == ecall_trap(msg),
    {
        match msg.check_supported() {
            Ok(()) => {},
            Err(_) => {
                // The guest is told; the hypervisor goes on.
                self.state.general_purpose_registers.set_reg(
                    GprIndex::A0,
                    SBI_ERR_NOT_SUPPORTED,
                );
                return None;
            },
        }
        match msg {
            HyperCallMsg::Base(_) => {
                self.set_sbi_value(reply.value);
                None
            },
            HyperCallMsg::GetChar => {
                let c: usize = match self.input_buffer.pop_front() {
                    Some(c) => c,
                    None => SBI_NO_CHAR,
                };
                self.state.general_purpose_registers.set_reg(GprIndex::A0, c);
                None
            },
            HyperCallMsg::PutChar(c) => {
                self.host_ops.push(HostOp::PutChar(c));
                self.state.general_purpose_registers.set_reg(GprIndex::A0, SBI_SUCCESS);
                None
            },
            HyperCallMsg::SetTimer(timer) => {
                self.timer = timer;
                self.host_ops.push(HostOp::ClearVstip);
                self.state.general_purpose_registers.set_reg(GprIndex::A0, SBI_SUCCESS);
                Some(VmmTrap::SetTimer(timer))
            },
            HyperCallMsg::Reset(_) => {
                self.host_ops.push(HostOp::SystemReset);
                self.state.general_purpose_registers.set_reg(GprIndex::A0, SBI_SUCCESS);
                None
            },
            HyperCallMsg::RemoteFence(_) => {
                self.set_sbi_return(reply);
                None
            },
            HyperCallMsg::PMU(PmuFunction::GetNumCounters) => {
                self.set_sbi_value(reply.value);
                None
            },
            HyperCallMsg::PMU(_) => {
                self.set_sbi_return(reply);
                None
            },
            HyperCallMsg::Ipi => None,
        }
    }

    /// Emulates the guest's call `msg`. A call of the base, performance
    /// monitoring or remote fence extension is put to the firmware beneath,
    /// whose answer the guest finds in its registers; what the machine looks
    /// like afterwards is [`VmView::ecall_result`] for that answer. Every other
    /// call is settled here.
    pub fn handle_ecall(&mut self, msg: HyperCallMsg) -> (trap: Option<VmmTrap>)
        requires
            old(self).wf(),
        ensures
            final(self).wf(),
            final(self)@ == old(self)@.ecall_result(msg, final(self)@.seen_reply()),
            trap == ecall_trap(msg),
    {
        match msg {
            HyperCallMsg::Base(base) => {
                let _ = self.handle_base_function(base);
                None
            },
            HyperCallMsg::RemoteFence(rfnc) => {
                let _ = self.handle_rfnc_function(rfnc);
                None
            },
            HyperCallMsg::PMU(pmu) => {
                let _ = self.handle_pmu_function(pmu);
                None
            },
            _ => self.complete_ecall(msg, SbiReturn { error: 0, value: 0 }),
        }
    }
}

impl VmView {
    /// The machine after the access `access` to `fault_addr` in the interrupt
    /// controller's window was emulated, or the error that refuses it.
    ///
    /// A store writes the low 32 bits of its source register to the shadow
    /// controller; where that completes an interrupt, the same store is queued
    /// for the real controller. A load puts the word that the shadow controller
    /// answers, extended with zeros, into its destination register.
    pub open spec fn mmio_result(self, access: MmioAccess, fault_addr: usize) -> Result<
        VmView,
        HyperError,
    > {
        match access {
            MmioAccess::Store { rs2 } => {
                let val = low_word(self.gprs[rs2 as int]);
                let stored = VmView { plic: self.plic.write(fault_addr, val), ..self };
                if self.plic.is_completion(fault_addr) {
                    Ok(stored.with_op(HostOp::CompleteInterrupt { addr: fault_addr, irq: val }))
                } else {
                    Ok(stored)
                }
            },
            MmioAccess::Load { rd } => match GprIndex::spec_from_raw(rd) {
                Some(idx) => Ok(self.with_reg(idx, self.plic.read(fault_addr) as usize)),
                None => Ok(self),
            },
            MmioAccess::Other => Err(HyperError::InvalidInstruction),
            MmioAccess::Undecodable => Err(HyperError::DecodeError),
        }
    }

    /// Machine and outcome after the instruction `inst`, which faulted on
    /// `fault_addr` in the interrupt controller's window, was emulated. On
    /// success the program counter is to move on by the instruction's length.
    pub open spec fn page_fault_completed(self, inst: u32, fault_addr: usize) -> (
        VmView,
        HyperResult<ExitAction>,
    ) {
        match self.mmio_result(decoded_access(decoder_input(inst)), fault_addr) {
            Ok(vm) => (
                VmView {
                    advance_pc: true,
                    instruction_length: instruction_length_of(inst as u16),
                    ..vm
                },
                Ok(ExitAction::Resume),
            ),
            Err(e) => (self, Err(e)),
        }
    }

    /// Machine and outcome after a supervisor page fault on `fault_addr` by the
    /// instruction at `inst_addr`, of which the trap reported the word `inst`.
    ///
    /// A fault outside the interrupt controller's window is refused. Where the
    /// trap reported no instruction word, the caller is asked to fetch it.
    pub open spec fn page_fault_result(self, inst_addr: usize, inst: u32, fault_addr: usize) -> (
        VmView,
        HyperResult<ExitAction>,
    ) {
        if !self.plic.contains(fault_addr) {
            (self, Err(HyperError::PageFault))
        } else if inst == 0 {
            (self, Ok(ExitAction::FetchInstruction { inst_addr, fault_addr }))
        } else {
            self.page_fault_completed(inst, fault_addr)
        }
    }

    /// The machine after the hypervisor claimed the interrupt `irq` for the
    /// guest: the claim is recorded for the guest to read, and an external
    /// interrupt is made pending for it.
    pub open spec fn irq_claimed(self, irq: u32) -> VmView {
        VmView { plic: self.plic.claim(IRQ_CONTEXT as int, irq), ..self }.with_op(HostOp::SetVseip)
    }

    /// Whether the exit handler takes `exit`. It does not take an
    /// environment call that names no known request, a page fault from user
    /// mode, or a fault in the interrupt controller's window by an instruction
    /// longer than 4 bytes.
    pub open spec fn can_handle(self, exit: VmExitInfo) -> bool {
        match exit {
            VmExitInfo::Ecall(msg) => msg is Some,
            VmExitInfo::PageFault { fault_addr, fault_pc, inst, priv_level } => {
                &&& priv_level is Supervisor
                &&& self.plic.contains(fault_addr) && inst != 0 ==> has_emulable_length(inst)
            },
            _ => true,
        }
    }

    /// Machine and outcome after `exit` was handled, where `reply` is what the
    /// firmware answered if the exit made the hypervisor call it.
    pub open spec fn exit_result(self, exit: VmExitInfo, reply: SbiReturn) -> (
        VmView,
        HyperResult<ExitAction>,
    ) {
        match exit {
            VmExitInfo::Ecall(Some(msg)) => (
                VmView { advance_pc: true, instruction_length: 4, ..self.ecall_result(msg, reply) },
                Ok(
                    match ecall_trap(msg) {
                        Some(trap) => ExitAction::Yield(trap),
                        None => ExitAction::Resume,
                    },
                ),
            ),
            VmExitInfo::PageFault { fault_addr, fault_pc, inst, priv_level } => {
                self.page_fault_result(fault_pc, inst, fault_addr)
            },
            VmExitInfo::TimerInterruptEmulation => (
                self,
                Ok(ExitAction::Yield(VmmTrap::TimerInterruptEmulation)),
            ),
            VmExitInfo::ExternalInterruptEmulation => (
                self,
                Ok(
                    ExitAction::ClaimInterrupt {
                        claim_addr: self.plic.claim_complete_addr(IRQ_CONTEXT as int) as usize,
                    },
                ),
            ),
            _ => (self, Ok(ExitAction::Resume)),
        }
    }
}

impl VM {
    /// Emulates the access `access` to `fault_addr` in the interrupt
    /// controller's window. On an error nothing changes.
    pub fn emulate_plic_access(&mut self, access: MmioAccess, fault_addr: usize) -> (r:
        HyperResult<()>)
        requires
            old(self).wf(),
            access.wf(),
            old(self)@.plic.contains(fault_addr),
        ensures
            final(self).wf(),
            match old(self)@.mmio_result(access, fault_addr) {
                Ok(vm) => r is Ok && final(self)@ == vm,
                Err(e) => r == Err::<(), HyperError>(e) && final(self)@ == old(self)@,
            },
    {
        match access {
            MmioAccess::Store { rs2 } => {
                match GprIndex::from_raw(rs2) {
                    Some(idx) => {
                        let reg: usize = self.state.general_purpose_registers.reg(idx);
                        let val: u32 = reg as u32;
                        assert(val == low_word(reg)) by (bit_vector)
                            requires
                                val == reg as u32,
                        ;
                        let completion: bool = self.plic.write_u32(fault_addr, val);
                        if completion {
                            self.host_ops.push(
                                HostOp::CompleteInterrupt { addr: fault_addr, irq: val },
                            );
                        }
                    },
                    None => {},
                }
                Ok(())
            },
            MmioAccess::Load { rd } => {
                match GprIndex::from_raw(rd) {
                    Some(idx) => {
                        let val: u32 = self.plic.read_u32(fault_addr);
                        self.state.general_purpose_registers.set_reg(idx, val as usize);
                    },
                    None => {},
                }
                Ok(())
            },
            MmioAccess::Other => Err(HyperError::InvalidInstruction),
            MmioAccess::Undecodable => Err(HyperError::DecodeError),
        }
    }

    /// Emulates the instruction `inst`, which faulted on `fault_addr` in the
    /// interrupt controller's window, and returns its length in bytes.
    ///
    /// Only `sw` and `lw` are emulated, in their 4-byte and 2-byte encodings.
    /// A word that is no instruction gives [`HyperError::DecodeError`], any
    /// other instruction [`HyperError::InvalidInstruction`]; then nothing
    /// changes.
    pub fn handle_plic(&mut self, inst: u32, fault_addr: usize) -> (r: HyperResult<usize>)
        requires
            old(self).wf(),
            old(self)@.plic.contains(fault_addr),
            has_emulable_length(inst),
        ensures
            final(self).wf(),
            match old(self)@.mmio_result(decoded_access(decoder_input(inst)), fault_addr) {
                Ok(vm) => r == Ok::<usize, HyperError>(instruction_length_of(inst as u16))
                    && final(self)@ == vm,
                Err(e) => r == Err::<usize, HyperError>(e) && final(self)@ == old(self)@,
            },
    {
        let (len, access) = classify_instruction(inst);
        match self.emulate_plic_access(access, fault_addr) {
            Ok(()) => Ok(len),
            Err(e) => Err(e),
        }
    }

    /// Finishes a page fault in the interrupt controller's window once the
    /// word `inst` of the faulting instruction is known: emulates it and has
    /// the program counter move on by its length.
    pub fn complete_page_fault(&mut self, inst: u32, fault_addr: usize) -> (r: HyperResult<
        ExitAction,
    >)
        requires
            old(self).wf(),
            old(self)@.plic.contains(fault_addr),
            has_emulable_length(inst),
        ensures
            final(self).wf(),
            (final(self)@, r) == old(self)@.page_fault_completed(inst, fault_addr),
    {
        match self.handle_plic(inst, fault_addr) {
            Ok(len) => {
                self.state.instruction_length = len;
                self.state.advance_pc = true;
                Ok(ExitAction::Resume)
            },
            Err(e) => Err(e),
        }
    }

    /// Handles a supervisor page fault on `fault_addr` by the instruction at
    /// `inst_addr`, of which the trap reported the word `inst`, zero if none.
    pub fn handle_page_fault(&mut self, inst_addr: usize, inst: u32, fault_addr: usize) -> (r:
        HyperResult<ExitAction>)
        requires
            old(self).wf(),
            old(self)@.plic.contains(fault_addr) && inst != 0 ==> has_emulable_length(inst),
        ensures
            final(self).wf(),
            (final(self)@, r) == old(self)@.page_fault_result(inst_addr, inst, fault_addr),
    {
        if !self.plic.contains(fault_addr) {
            Err(HyperError::PageFault)
        } else if inst == 0 {
            Ok(ExitAction::FetchInstruction { inst_addr, fault_addr })
        } else {
            self.complete_page_fault(inst, fault_addr)
        }
    }

    /// Records the interrupt `irq`, which the hypervisor claimed from the real
    /// controller on the guest's behalf, and has an external interrupt made
    /// pending for the guest before it runs again.
    pub fn handle_irq(&mut self, irq: u32)
        requires
            old(self).wf(),
            irq != 0,
        ensures
            final(self).wf(),
            final(self)@ == old(self)@.irq_claimed(irq),
            final(self)@.plic.claim_complete[IRQ_CONTEXT as int] == irq,
            final(self)@.host_ops.last() == HostOp::SetVseip,
    {
        self.plic.set_claim_complete(IRQ_CONTEXT, irq);
        self.host_ops.push(HostOp::SetVseip);
    }

    /// Whether [`VM::handle_exit`] takes `exit`.
    pub fn can_handle(&self, exit: &VmExitInfo) -> (ok: bool)
        ensures
            ok == self@.can_handle(*exit),
    {
        match exit {
            VmExitInfo::Ecall(msg) => msg.is_some(),
            VmExitInfo::PageFault { fault_addr, fault_pc, inst, priv_level } => {
                match priv_level {
                    PrivilegeLevel::Supervisor => {
                        !self.plic.contains(*fault_addr) || *inst == 0 || check_emulable_length(
                            *inst,
                        )
                    },
                    PrivilegeLevel::User => false,
                }
            },
            _ => true,
        }
    }

    /// Handles one guest exit: emulates what the guest asked for and says what
    /// the caller has to do next.
    ///
    /// An environment call is emulated and the program counter moves on by 4.
    /// A supervisor page fault is emulated as an access to the interrupt
    /// controller and the program counter moves on by the instruction's
    /// length. A timer interrupt is handed to the scheduler. For an external
    /// interrupt the caller is asked to claim it. Nothing is done for any other
    /// exit. On an error nothing changes.
    pub fn handle_exit(&mut self, exit: VmExitInfo) -> (r: HyperResult<ExitAction>)
        requires
            old(self).wf(),
            old(self)@.can_handle(exit),
        ensures
            final(self).wf(),
            (final(self)@, r) == old(self)@.exit_result(exit, final(self)@.seen_reply()),
    {
        match exit {
            VmExitInfo::Ecall(Some(msg)) => {
                let trap = self.handle_ecall(msg);
                self.state.instruction_length = 4;
                self.state.advance_pc = true;
                match trap {
                    Some(trap) => Ok(ExitAction::Yield(trap)),
                    None => Ok(ExitAction::Resume),
                }
            },
            VmExitInfo::PageFault { fault_addr, fault_pc, inst, priv_level } => {
                self.handle_page_fault(fault_pc, inst, fault_addr)
            },
            VmExitInfo::TimerInterruptEmulation => Ok(
                ExitAction::Yield(VmmTrap::TimerInterruptEmulation),
            ),
            VmExitInfo::ExternalInterruptEmulation => {
                let claim_addr: usize = self.plic.claim_complete_addr(IRQ_CONTEXT);
                Ok(ExitAction::ClaimInterrupt { claim_addr })
            },
            _ => Ok(ExitAction::Resume),
        }
    }
}

/// Saving a vCPU's registers and restoring them with no emulation in between
/// leaves the vCPU with the very registers and program counter it stopped with.
pub proof fn lemma_save_restore_roundtrip(vm: VmView, vcpu_id: int, gprs: Seq<usize>, pc: usize)
    requires
        0 <= vcpu_id < vm.vcpus.len(),
    ensures
        vm.saved(vcpu_id, gprs, pc).restored(vcpu_id).vcpus[vcpu_id] == (VCpuView {
            gprs,
            pc,
            ..vm.vcpus[vcpu_id]
        }),
{
}

/// Restoring a vCPU leaves its program counter where it was, if the handler did
/// not ask for it to move, and otherwise moves it on by exactly the length of
/// the trapping instruction, which is 2 or 4.
pub proof fn lemma_pc_after_restore(vm: VmView, vcpu_id: int)
    requires
        vm.wf(),
        0 <= vcpu_id < vm.vcpus.len(),
    ensures
        ({
            let before = vm.vcpus[vcpu_id].pc;
            let after = vm.restored(vcpu_id).vcpus[vcpu_id].pc;
            &&& !vm.advance_pc ==> after == before
            &&& vm.advance_pc ==> after == pc_after(before, vm.instruction_length) && (
            vm.instruction_length == 2 || vm.instruction_length == 4)
            &&& before + vm.instruction_length <= usize::MAX ==> pc_after(
                before,
                vm.instruction_length,
            ) == before + vm.instruction_length
        }),
{
}

/// Once an exit is handled and the vCPU restored, the guest's program counter
/// either is where it was, if the handler did not ask for it to move, or has
/// moved on by exactly the length of the trapping instruction, which is 2 or 4.
pub proof fn lemma_pc_after_exit(vm: VmView, exit: VmExitInfo, reply: SbiReturn, vcpu_id: int)
    requires
        vm.wf(),
        vm.can_handle(exit),
        0 <= vcpu_id < vm.vcpus.len(),
    ensures
        ({
            let handled = vm.exit_result(exit, reply).0;
            let before = vm.vcpus[vcpu_id].pc;
            let after = handled.restored(vcpu_id).vcpus[vcpu_id].pc;
            &&& handled.wf()
            &&& handled.vcpus == vm.vcpus
            &&& !handled.advance_pc ==> after == before
            &&& handled.advance_pc ==> after == pc_after(before, handled.instruction_length) && (
            handled.instruction_length == 2 || handled.instruction_length == 4)
        }),
{
    lemma_exit_keeps_wf(vm, exit, reply);
}

/// Handling an exit that the handler takes keeps the machine sound, and so
/// does refusing one.
pub proof fn lemma_exit_keeps_wf(vm: VmView, exit: VmExitInfo, reply: SbiReturn)
    requires
        vm.wf(),
    ensures
        vm.can_handle(exit) ==> vm.exit_result(exit, reply).0.wf(),
        vm.exit_result(exit, reply).1 is Err ==> vm.exit_result(exit, reply).0 == vm,
{
}

/// Every emulated firmware call leaves a status in `a0`: success where the
/// call is settled by the hypervisor, the firmware's own status where the call
/// is passed on to it, and "not supported" for a call that is not implemented,
/// which also leaves `a1` alone. A console read leaves the character in `a0`,
/// or [`SBI_NO_CHAR`].
pub proof fn lemma_ecall_status(vm: VmView, msg: HyperCallMsg, reply: SbiReturn)
    requires
        vm.wf(),
    ensures
        ({
            let after = vm.ecall_result(msg, reply);
            let a0 = after.reg(GprIndex::A0);
            match msg {
                HyperCallMsg::Base(_) => a0 == SBI_SUCCESS && after.reg(GprIndex::A1)
                    == reply.value,
                HyperCallMsg::GetChar => a0 == (if vm.input.len() > 0 {
                    vm.input[0]
                } else {
                    SBI_NO_CHAR
                }),
                HyperCallMsg::PutChar(_) => a0 == SBI_SUCCESS,
                HyperCallMsg::SetTimer(_) => a0 == SBI_SUCCESS,
                HyperCallMsg::Reset(_) => a0 == SBI_SUCCESS,
                HyperCallMsg::RemoteFence(_) => a0 == reply.error && after.reg(GprIndex::A1)
                    == reply.value,
                HyperCallMsg::PMU(PmuFunction::GetNumCounters) => a0 == SBI_SUCCESS && after.reg(
                    GprIndex::A1,
                ) == reply.value,
                HyperCallMsg::PMU(_) => a0 == reply.error && after.reg(GprIndex::A1)
                    == reply.value,
                HyperCallMsg::Ipi => a0 == SBI_ERR_NOT_SUPPORTED && after.reg(GprIndex::A1)
                    == vm.reg(GprIndex::A1),
            }
        }),
        vm.ecall_result(msg, reply).wf(),
{
}

/// A word that the guest stores to a register of the interrupt controller is
/// the word that its next load from that register returns, extended with
/// zeros.
///
/// This does not hold of a claim/complete register, which answers with the
/// pending claim, unless nothing is pending and zero is stored. Nor does it hold
/// of a load into `x0`, which keeps no value.
pub proof fn lemma_load_sees_store(vm: VmView, fault_addr: usize, rs2: u32, rd: u32)
    requires
        vm.wf(),
        vm.plic.contains(fault_addr),
        claim_context(fault_addr - vm.plic.base) matches Some(context) ==> low_word(
            vm.gprs[rs2 as int],
        ) == 0 && vm.plic.claim_complete[context] == 0,
        rs2 < 32,
        0 < rd < 32,
    ensures
        vm.mmio_result(MmioAccess::Store { rs2 }, fault_addr) matches Ok(stored)
            && stored.mmio_result(MmioAccess::Load { rd }, fault_addr) matches Ok(loaded)
            && loaded.gprs[rd as int] == low_word(vm.gprs[rs2 as int]) as usize,
{
}

/// An interrupt that the hypervisor claimed is what the guest reads from the
/// claim/complete register of its context, and an external interrupt is among
/// the operations to carry out before the guest runs again.
pub proof fn lemma_claimed_interrupt_is_pending(vm: VmView, irq: u32)
    requires
        vm.wf(),
    ensures
        ({
            let claimed = vm.irq_claimed(irq);
            let addr = vm.plic.claim_complete_addr(IRQ_CONTEXT as int) as usize;
            &&& claimed.wf()
            &&& claimed.plic.claim_complete[IRQ_CONTEXT as int] == irq
            &&& claimed.plic.contains(addr)
            &&& claimed.plic.read(addr) == irq
            &&& claimed.host_ops.contains(HostOp::SetVseip)
            &&& claimed.restored(0).host_ops.len() == 0
        }),
{
    let claimed = vm.irq_claimed(irq);
    assert(claimed.host_ops[claimed.host_ops.len() - 1] == HostOp::SetVseip);
}

/// A 2-byte instruction is emulated as the 4-byte instruction that makes the
/// same access: the two leave the same machine behind but for the length by
/// which the program counter moves on, and fail alike.
pub proof fn lemma_compressed_like_full(vm: VmView, short: u32, full: u32, fault_addr: usize)
    requires
        instruction_length_of(short as u16) == 2,
        instruction_length_of(full as u16) == 4,
        decoded_access(decoder_input(short)) == decoded_access(decoder_input(full)),
    ensures
        ({
            let by_short = vm.page_fault_completed(short, fault_addr);
            let by_full = vm.page_fault_completed(full, fault_addr);
            &&& by_short.1 == by_full.1
            &&& by_full.1 is Ok ==> by_short.0 == (VmView { instruction_length: 2, ..by_full.0 })
                && by_full.0.instruction_length == 4
            &&& by_full.1 is Err ==> by_short.0 == vm && by_full.0 == vm
        }),
{
}

} // verus!
