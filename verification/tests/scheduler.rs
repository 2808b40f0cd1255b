use hypercraft::hostop::HostOp;
use hypercraft::sbi::{HyperCallMsg, SbiReturn};
use hypercraft::vcpu::{VCpu, VmCpus};
use hypercraft::vm::VM;
use hypercraft::vmm::{FOCUS_KEY, TIME_SLICE, VMM};
use hypercraft::vmm_trap::VmmTrap;

fn machine() -> VM {
    let mut vcpus = VmCpus::new();
    vcpus.add_vcpu(VCpu::new(0x8020_0000));
    VM::new(vcpus, 0).unwrap()
}

fn scheduler(machines: usize, time_slice: u64) -> VMM {
    let mut vmm = VMM::with_time_slice(time_slice);
    let mut i = 0;
    while i < machines {
        vmm.add_vm(machine());
        i += 1;
    }
    vmm
}

fn set_deadline(vmm: &mut VMM, id: usize, deadline: u64) {
    vmm.vm_mut(id).complete_ecall(HyperCallMsg::SetTimer(deadline), SbiReturn { error: 0, value: 0 });
    vmm.vm_mut(id).restore_state(0);
}

#[test]
fn new_scheduler_is_empty() {
    let vmm = VMM::new();
    assert_eq!(vmm.vm_count(), 0);
    assert_eq!(vmm.switch_vm_timer(), u64::MAX);
    assert_eq!(vmm.time_slice(), 200_000);
    assert_eq!(TIME_SLICE, 200_000);
    assert_eq!(vmm.current_vm(), 0);
    assert_eq!(vmm.input_vm(), 0);
}

#[test]
fn time_slice_can_be_chosen() {
    let vmm = VMM::with_time_slice(100);
    assert_eq!(vmm.time_slice(), 100);
    assert_eq!(vmm.vm_count(), 0);
    assert_eq!(vmm.switch_vm_timer(), u64::MAX);
}

#[test]
fn add_vm_appends() {
    let mut vmm = VMM::new();
    let mut first = machine();
    first.add_char_to_input_buffer(1);
    vmm.add_vm(first);
    vmm.add_vm(machine());
    assert_eq!(vmm.vm_count(), 2);
    assert_eq!(vmm.vm(0).input_len(), 1);
    assert_eq!(vmm.vm(1).input_len(), 0);
    assert_eq!(vmm.current_vm(), 0);
    assert_eq!(vmm.switch_vm_timer(), u64::MAX);
}

#[test]
fn start_arms_the_first_quantum() {
    let mut vmm = scheduler(2, 100);
    let ops = vmm.start(40);
    assert_eq!(ops, vec![HostOp::EnableStie, HostOp::SetTimer(140)]);
    assert_eq!(vmm.switch_vm_timer(), 140);
    assert_eq!(vmm.current_vm(), 0);
    assert_eq!(vmm.input_vm(), 0);
}

#[test]
fn start_with_the_default_quantum() {
    let mut vmm = VMM::new();
    vmm.add_vm(machine());
    assert_eq!(vmm.start(1_000), vec![HostOp::EnableStie, HostOp::SetTimer(201_000)]);
    assert_eq!(vmm.switch_vm_timer(), 201_000);
}

#[test]
fn start_resets_focus_and_turn() {
    let mut vmm = scheduler(3, 10);
    vmm.start(0);
    vmm.switch_vm(11);
    vmm.console_input(FOCUS_KEY);
    assert_eq!(vmm.current_vm(), 1);
    assert_eq!(vmm.input_vm(), 1);
    vmm.start(50);
    assert_eq!(vmm.current_vm(), 0);
    assert_eq!(vmm.input_vm(), 0);
    assert_eq!(vmm.switch_vm_timer(), 60);
}

#[test]
fn guest_timer_is_armed_in_firmware() {
    let vmm = scheduler(1, 100);
    let outcome = vmm.handle_trap(VmmTrap::SetTimer(1_000_000), 5);
    assert_eq!(
        outcome.ops,
        vec![HostOp::EnableStie, HostOp::ClearVstip, HostOp::SetTimer(1_000_000)]
    );
    assert!(!outcome.quantum_expired);
}

#[test]
fn guest_timer_trap_never_ends_the_quantum() {
    let mut vmm = scheduler(1, 100);
    vmm.start(0);
    let outcome = vmm.handle_trap(VmmTrap::SetTimer(7), 1_000);
    assert!(!outcome.quantum_expired);
    assert_eq!(vmm.current_vm(), 0);
    assert_eq!(vmm.switch_vm_timer(), 100);
}

#[test]
fn timer_interrupt_without_due_deadline_only_gates_the_host_timer() {
    let mut vmm = scheduler(2, 100);
    vmm.start(0);
    set_deadline(&mut vmm, 0, 500);
    let outcome = vmm.handle_trap(VmmTrap::TimerInterruptEmulation, 50);
    assert_eq!(outcome.ops, vec![HostOp::DisableStie]);
    assert!(!outcome.quantum_expired);
}

#[test]
fn timer_interrupt_injects_when_a_deadline_has_come() {
    let mut vmm = scheduler(3, 1_000);
    vmm.start(0);
    set_deadline(&mut vmm, 1, 60);
    let before = vmm.handle_trap(VmmTrap::TimerInterruptEmulation, 59);
    assert_eq!(before.ops, vec![HostOp::DisableStie]);
    let at = vmm.handle_trap(VmmTrap::TimerInterruptEmulation, 60);
    assert_eq!(at.ops, vec![HostOp::DisableStie, HostOp::SetVstip]);
    let after = vmm.handle_trap(VmmTrap::TimerInterruptEmulation, 61);
    assert_eq!(after.ops, vec![HostOp::DisableStie, HostOp::SetVstip]);
    assert!(!after.quantum_expired);
}

#[test]
fn timer_interrupt_injects_once_for_several_due_machines() {
    let mut vmm = scheduler(3, 1_000);
    vmm.start(0);
    set_deadline(&mut vmm, 0, 10);
    set_deadline(&mut vmm, 2, 20);
    let outcome = vmm.handle_trap(VmmTrap::TimerInterruptEmulation, 30);
    assert_eq!(outcome.ops, vec![HostOp::DisableStie, HostOp::SetVstip]);
}

#[test]
fn quantum_ends_strictly_after_the_switch_time() {
    let mut vmm = scheduler(2, 100);
    vmm.start(0);
    assert!(!vmm.handle_trap(VmmTrap::TimerInterruptEmulation, 99).quantum_expired);
    assert!(!vmm.handle_trap(VmmTrap::TimerInterruptEmulation, 100).quantum_expired);
    assert!(vmm.handle_trap(VmmTrap::TimerInterruptEmulation, 101).quantum_expired);
}

#[test]
fn switch_vm_rotates_and_rearms() {
    let mut vmm = scheduler(3, 100);
    vmm.start(0);
    let ops = vmm.switch_vm(105);
    assert_eq!(ops, vec![HostOp::EnableStie, HostOp::SetTimer(205)]);
    assert_eq!(vmm.current_vm(), 1);
    assert_eq!(vmm.switch_vm_timer(), 205);
    assert_eq!(vmm.input_vm(), 0);
}

#[test]
fn rotation_is_round_robin() {
    let mut vmm = scheduler(3, 100);
    vmm.start(0);
    let mut now: u64 = 0;
    let mut seen = vec![vmm.current_vm()];
    let mut quantum = 0;
    while quantum < 7 {
        now += 105;
        assert!(vmm.handle_trap(VmmTrap::TimerInterruptEmulation, now).quantum_expired);
        vmm.switch_vm(now);
        seen.push(vmm.current_vm());
        quantum += 1;
    }
    assert_eq!(seen, vec![0, 1, 2, 0, 1, 2, 0, 1]);
}

#[test]
fn single_machine_keeps_the_hart() {
    let mut vmm = scheduler(1, 100);
    vmm.start(0);
    vmm.switch_vm(101);
    assert_eq!(vmm.current_vm(), 0);
    vmm.switch_vm(202);
    assert_eq!(vmm.current_vm(), 0);
    assert_eq!(vmm.switch_vm_timer(), 302);
}

#[test]
fn switch_timer_grows_with_every_rotation() {
    let mut vmm = scheduler(2, 100);
    vmm.start(0);
    let mut last = vmm.switch_vm_timer();
    let mut now: u64 = 0;
    let mut quantum = 0;
    while quantum < 5 {
        now = last + 1 + quantum;
        vmm.switch_vm(now);
        assert!(vmm.switch_vm_timer() > last);
        assert_eq!(vmm.switch_vm_timer(), now + 100);
        last = vmm.switch_vm_timer();
        quantum += 1;
    }
}

#[test]
fn console_character_goes_to_the_focused_machine() {
    let mut vmm = scheduler(2, 100);
    vmm.start(0);
    assert!(vmm.console_input(b'a' as usize));
    assert_eq!(vmm.vm(0).input_len(), 1);
    assert_eq!(vmm.vm(1).input_len(), 0);
    assert_eq!(vmm.input_vm(), 0);
}

#[test]
fn backtick_moves_the_focus() {
    let mut vmm = scheduler(3, 100);
    vmm.start(0);
    assert_eq!(FOCUS_KEY, 96);
    assert!(vmm.console_input(0x60));
    assert_eq!(vmm.input_vm(), 1);
    assert!(vmm.console_input(0x60));
    assert_eq!(vmm.input_vm(), 2);
    assert!(vmm.console_input(0x60));
    assert_eq!(vmm.input_vm(), 0);
    assert_eq!(vmm.vm(0).input_len(), 0);
    assert_eq!(vmm.vm(1).input_len(), 0);
    assert_eq!(vmm.vm(2).input_len(), 0);
    assert_eq!(vmm.current_vm(), 0);
}

#[test]
fn no_character_ends_the_polling() {
    let mut vmm = scheduler(2, 100);
    vmm.start(0);
    assert!(!vmm.console_input(usize::MAX));
    assert_eq!(vmm.vm(0).input_len(), 0);
    assert_eq!(vmm.input_vm(), 0);
}

#[test]
fn dispatch_stops_at_the_first_sentinel() {
    let mut vmm = scheduler(2, 100);
    vmm.start(0);
    vmm.dispatch_console_input(&vec![b'a' as usize, usize::MAX, b'b' as usize, 0x60]);
    assert_eq!(vmm.vm(0).input_len(), 1);
    assert_eq!(vmm.vm(1).input_len(), 0);
    assert_eq!(vmm.input_vm(), 0);
}

#[test]
fn dispatch_of_nothing_changes_nothing() {
    let mut vmm = scheduler(2, 100);
    vmm.start(0);
    vmm.dispatch_console_input(&vec![]);
    vmm.dispatch_console_input(&vec![usize::MAX]);
    assert_eq!(vmm.vm(0).input_len(), 0);
    assert_eq!(vmm.vm(1).input_len(), 0);
    assert_eq!(vmm.input_vm(), 0);
}

#[test]
fn focus_and_turn_are_independent() {
    let mut vmm = scheduler(3, 100);
    vmm.start(0);
    vmm.console_input(0x60);
    vmm.switch_vm(101);
    vmm.switch_vm(202);
    assert_eq!(vmm.current_vm(), 2);
    assert_eq!(vmm.input_vm(), 1);
    vmm.console_input(b'z' as usize);
    assert_eq!(vmm.vm(1).input_len(), 1);
    assert_eq!(vmm.vm(2).input_len(), 0);
}

#[test]
fn vm_mut_hands_out_the_machine_itself() {
    let mut vmm = scheduler(2, 100);
    vmm.vm_mut(1).add_char_to_input_buffer(5);
    vmm.vm_mut(1).add_char_to_input_buffer(6);
    assert_eq!(vmm.vm(1).input_len(), 2);
    assert_eq!(vmm.vm(0).input_len(), 0);
    assert_eq!(vmm.vm_count(), 2);
}

#[test]
fn end_quantum_routes_input_then_rotates() {
    let mut vmm = scheduler(3, 100);
    vmm.start(0);
    let ops = vmm.end_quantum(105, &vec![b'a' as usize, 0x60, b'b' as usize]);
    assert_eq!(ops, vec![HostOp::EnableStie, HostOp::SetTimer(205)]);
    assert_eq!(vmm.current_vm(), 1);
    assert_eq!(vmm.input_vm(), 1);
    assert_eq!(vmm.switch_vm_timer(), 205);
    assert_eq!(vmm.vm(0).input_len(), 1);
    assert_eq!(vmm.vm(1).input_len(), 1);
    assert_eq!(vmm.vm(2).input_len(), 0);
}

#[test]
fn end_quantum_with_a_silent_console_only_rotates() {
    let mut vmm = scheduler(2, 100);
    vmm.start(0);
    assert_eq!(vmm.end_quantum(101, &vec![]), vec![HostOp::EnableStie, HostOp::SetTimer(201)]);
    assert_eq!(vmm.current_vm(), 1);
    assert_eq!(vmm.input_vm(), 0);
    assert_eq!(vmm.vm(0).input_len(), 0);
    assert_eq!(vmm.end_quantum(202, &vec![]), vec![HostOp::EnableStie, HostOp::SetTimer(302)]);
    assert_eq!(vmm.current_vm(), 0);
}
