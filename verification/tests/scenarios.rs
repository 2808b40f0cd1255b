use hypercraft::hostop::HostOp;
use hypercraft::regs::{GeneralPurposeRegisters, GprIndex};
use hypercraft::sbi::HyperCallMsg;
use hypercraft::vcpu::{VCpu, VmCpus};
use hypercraft::vm::{ExitAction, VM};
use hypercraft::vmexit::{PrivilegeLevel, VmExitInfo};
use hypercraft::vmm::VMM;
use hypercraft::vmm_trap::VmmTrap;

const PC: usize = 0x8020_0000;
const SW_A2_0_A1: u32 = 0x00C5_A023;
const LW_A0_0_A1: u32 = 0x0005_A503;
const SW_A0_0_A1: u32 = 0x00A5_A023;

fn machine() -> VM {
    let mut vcpus = VmCpus::new();
    vcpus.add_vcpu(VCpu::new(PC));
    VM::new(vcpus, 0).unwrap()
}

fn enter(vm: &mut VM, pc: usize, a0: usize, a1: usize, a2: usize) {
    let mut regs = GeneralPurposeRegisters::new();
    regs.set_reg(GprIndex::A0, a0);
    regs.set_reg(GprIndex::A1, a1);
    regs.set_reg(GprIndex::A2, a2);
    vm.save_state(0, &regs, pc);
}

fn fault(fault_addr: usize, fault_pc: usize, inst: u32) -> VmExitInfo {
    VmExitInfo::PageFault { fault_addr, fault_pc, inst, priv_level: PrivilegeLevel::Supervisor }
}

#[test]
fn scenario_set_timer_yield() {
    let mut vmm = VMM::new();
    vmm.add_vm(machine());
    vmm.start(0);

    let vm = vmm.vm_mut(0);
    enter(vm, PC, 1_000_000, 0, 0);
    let action = vm.handle_exit(VmExitInfo::Ecall(Some(HyperCallMsg::SetTimer(1_000_000))));
    assert_eq!(action, Ok(ExitAction::Yield(VmmTrap::SetTimer(1_000_000))));
    let ops = vm.restore_state(0);
    assert_eq!(ops, vec![HostOp::ClearVstip]);
    assert_eq!(vm.vcpu(0).unwrap().pc(), PC + 4);
    assert_eq!(vm.get_timer(), 1_000_000);

    let outcome = vmm.handle_trap(VmmTrap::SetTimer(1_000_000), 10);
    assert_eq!(
        outcome.ops,
        vec![HostOp::EnableStie, HostOp::ClearVstip, HostOp::SetTimer(1_000_000)]
    );
    assert!(!outcome.quantum_expired);
    assert_eq!(vmm.current_vm(), 0);
}

#[test]
fn scenario_plic_claim_roundtrip() {
    let mut vm = machine();

    // Interrupt 5 arrives.
    enter(&mut vm, PC, 0, 0x0C20_1004, 0);
    let action = vm.handle_exit(VmExitInfo::ExternalInterruptEmulation);
    assert_eq!(action, Ok(ExitAction::ClaimInterrupt { claim_addr: 0x0C20_1004 }));
    vm.handle_irq(5);
    assert_eq!(vm.plic().claim_complete(1), 5);
    assert_eq!(vm.restore_state(0), vec![HostOp::SetVseip]);
    assert_eq!(vm.vcpu(0).unwrap().pc(), PC);

    // The guest reads its claim register.
    enter(&mut vm, PC + 0x100, 0, 0x0C20_1004, 0);
    let action = vm.handle_exit(fault(0x0C20_1004, PC + 0x100, LW_A0_0_A1));
    assert_eq!(action, Ok(ExitAction::Resume));
    assert_eq!(vm.gprs().reg(GprIndex::A0), 5);
    assert_eq!(vm.restore_state(0), vec![]);
    assert_eq!(vm.vcpu(0).unwrap().pc(), PC + 0x104);

    // The guest writes the interrupt back.
    enter(&mut vm, PC + 0x120, 5, 0x0C20_1004, 0);
    let action = vm.handle_exit(fault(0x0C20_1004, PC + 0x120, SW_A0_0_A1));
    assert_eq!(action, Ok(ExitAction::Resume));
    assert_eq!(vm.plic().claim_complete(1), 0);
    assert_eq!(
        vm.restore_state(0),
        vec![HostOp::CompleteInterrupt { addr: 0x0C20_1004, irq: 5 }]
    );
    assert_eq!(vm.vcpu(0).unwrap().pc(), PC + 0x124);
}

#[test]
fn scenario_plic_mmio_decode_from_zero_hinst() {
    let mut vm = machine();
    enter(&mut vm, PC, 0, 0x0C20_2000, 0x7);
    let action = vm.handle_exit(fault(0x0C20_2000, PC, 0));
    assert_eq!(action, Ok(ExitAction::FetchInstruction { inst_addr: PC, fault_addr: 0x0C20_2000 }));
    // The caller reads `sw a2, 0(a1)` from guest memory.
    let action = vm.complete_page_fault(SW_A2_0_A1, 0x0C20_2000);
    assert_eq!(action, Ok(ExitAction::Resume));
    assert_eq!(vm.plic().read_u32(0x0C20_2000), 0x7);
    assert_eq!(vm.instruction_length(), 4);
    assert_eq!(vm.restore_state(0), vec![]);
    assert_eq!(vm.vcpu(0).unwrap().pc(), PC + 4);
}

#[test]
fn scenario_round_robin_rotation() {
    let mut vmm = VMM::with_time_slice(100);
    vmm.add_vm(machine());
    vmm.add_vm(machine());
    vmm.add_vm(machine());
    assert_eq!(vmm.start(0), vec![HostOp::EnableStie, HostOp::SetTimer(100)]);
    assert_eq!(vmm.switch_vm_timer(), 100);
    assert_eq!(vmm.current_vm(), 0);

    let vm = vmm.vm_mut(0);
    enter(vm, PC, 0, 0, 0);
    let action = vm.handle_exit(VmExitInfo::TimerInterruptEmulation);
    assert_eq!(action, Ok(ExitAction::Yield(VmmTrap::TimerInterruptEmulation)));
    vm.restore_state(0);

    let outcome = vmm.handle_trap(VmmTrap::TimerInterruptEmulation, 105);
    assert_eq!(outcome.ops, vec![HostOp::DisableStie]);
    assert!(outcome.quantum_expired);
    assert_eq!(vmm.end_quantum(105, &vec![]), vec![HostOp::EnableStie, HostOp::SetTimer(205)]);
    assert_eq!(vmm.switch_vm_timer(), 205);
    assert_eq!(vmm.current_vm(), 1);

    let mut now: u64 = 105;
    let mut order = vec![0, 1];
    let mut quantum = 0;
    while quantum < 4 {
        now += 105;
        assert!(vmm.handle_trap(VmmTrap::TimerInterruptEmulation, now).quantum_expired);
        vmm.end_quantum(now, &vec![]);
        order.push(vmm.current_vm());
        quantum += 1;
    }
    assert_eq!(order, vec![0, 1, 2, 0, 1, 2]);
}

#[test]
fn scenario_console_focus_toggle() {
    let mut vmm = VMM::new();
    vmm.add_vm(machine());
    vmm.add_vm(machine());
    vmm.start(0);
    assert_eq!(vmm.input_vm(), 0);
    vmm.dispatch_console_input(&vec![b'a' as usize, b'b' as usize, 0x60, b'c' as usize]);
    assert_eq!(vmm.input_vm(), 1);
    assert_eq!(vmm.vm(0).input_len(), 2);
    assert_eq!(vmm.vm(1).input_len(), 1);

    let first = vmm.vm_mut(0);
    enter(first, PC, 0, 0, 0);
    first.handle_ecall(HyperCallMsg::GetChar);
    assert_eq!(first.gprs().reg(GprIndex::A0), b'a' as usize);
    first.handle_ecall(HyperCallMsg::GetChar);
    assert_eq!(first.gprs().reg(GprIndex::A0), b'b' as usize);
    first.handle_ecall(HyperCallMsg::GetChar);
    assert_eq!(first.gprs().reg(GprIndex::A0), usize::MAX);

    let second = vmm.vm_mut(1);
    enter(second, PC, 0, 0, 0);
    second.handle_ecall(HyperCallMsg::GetChar);
    assert_eq!(second.gprs().reg(GprIndex::A0), b'c' as usize);
}

#[test]
fn scenario_unsupported_sbi() {
    let vm = machine();
    assert!(!vm.can_handle(&VmExitInfo::Ecall(None)));
}
