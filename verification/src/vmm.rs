//! The scheduler: it gives each virtual machine the hart for a quantum of time,
//! in turn, passes timer interrupts on to the guests whose deadline has come,
//! and routes console input to the machine that has the focus.
//!
//! Like the exit handler, the scheduler decides and leaves the doing to its
//! caller: it is told the time and what a machine yielded, and answers with the
//! operations to carry out on the host hart.

use vstd::prelude::*;
use crate::hostop::HostOp;
use crate::sbi::SBI_NO_CHAR;
use crate::vm::{VmView, VM};
use crate::vmm_trap::VmmTrap;

verus! {

/// Length of a quantum in ticks of the hart's timer, unless one is chosen.
pub const TIME_SLICE: u64 = 200_000;

/// The console character that moves the input focus to the next machine: a
/// backtick.
pub const FOCUS_KEY: usize = 0x60;

/// `riscv::register::time::read`, the hart's timer as a 64-bit count. Believed
/// without proof: the call returns. Nothing is claimed of the count, not even
/// that it grows. The register exists on RISC-V harts only.
#[verifier::external_body]
fn get_time() -> (now: u64) {
    riscv::register::time::read() as u64
}

/// The index that follows `id` among `n` machines, going round.
pub open spec fn next_vm(id: nat, n: nat) -> nat {
    (id + 1) % n
}

/// The index of the machine that runs `quanta` rotations after machine `id`.
pub open spec fn vm_after(id: nat, n: nat, quanta: nat) -> nat
    decreases quanta,
{
    if quanta == 0 {
        id
    } else {
        next_vm(vm_after(id, n, (quanta - 1) as nat), n)
    }
}

/// The scheduler as a mathematical value.
#[verifier::ext_equal]
pub struct VmmView {
    /// The virtual machines, in the order in which they were added.
    pub vms: Seq<VmView>,
    /// The time at which the running machine's quantum ends.
    pub switch_vm_timer: u64,
    /// Length of a quantum.
    pub time_slice: u64,
    /// Index of the machine that has the hart.
    pub current: nat,
    /// Index of the machine that console input goes to.
    pub input_vm: nat,
}

impl VmmView {
    /// The invariant of the scheduler: every machine is sound, and the two
    /// indices name a machine, or are zero while there is none.
    pub open spec fn wf(self) -> bool {
        &&& forall|i: int| 0 <= i < self.vms.len() ==> #[trigger] self.vms[i].wf()
        &&& self.vms.len() > 0 ==> self.current < self.vms.len() && self.input_vm
            < self.vms.len()
        &&& self.vms.len() == 0 ==> self.current == 0 && self.input_vm == 0
    }

    /// Whether some machine's timer deadline has come at time `now`.
    pub open spec fn timer_due(self, now: u64) -> bool {
        exists|i: int| 0 <= i < self.vms.len() && #[trigger] self.vms[i].timer <= now
    }

    /// Whether the running machine's quantum is over at time `now`.
    pub open spec fn quantum_expired(self, now: u64) -> bool {
        now > self.switch_vm_timer
    }

    /// The scheduler with a new quantum that begins at `now`.
    pub open spec fn rearmed(self, now: u64) -> VmmView {
        VmmView { switch_vm_timer: (now + self.time_slice) as u64, ..self }
    }

    /// The operations that begin a quantum at `now`: the host timer may
    /// interrupt again, and the firmware timer is set to the quantum's end.
    pub open spec fn rearm_ops(self, now: u64) -> Seq<HostOp> {
        seq![HostOp::EnableStie, HostOp::SetTimer((now + self.time_slice) as u64)]
    }

    /// The scheduler when it starts at `now`: the first machine has the hart
    /// and the input focus, and its quantum begins.
    pub open spec fn started(self, now: u64) -> VmmView {
        VmmView { current: 0, input_vm: 0, ..self.rearmed(now) }
    }

    /// The scheduler after a rotation at `now`: the next machine has the hart
    /// and a new quantum begins.
    pub open spec fn switched(self, now: u64) -> VmmView {
        VmmView { current: next_vm(self.current, self.vms.len()), ..self.rearmed(now) }
    }

    /// The scheduler after one rotation at each of the times `nows`, in their
    /// order.
    pub open spec fn rotated(self, nows: Seq<u64>) -> VmmView
        decreases nows.len(),
    {
        if nows.len() == 0 {
            self
        } else {
            self.rotated(nows.drop_last()).switched(nows.last())
        }
    }

    /// The operations that answer the trap `trap` at time `now`.
    ///
    /// A guest that set its timer has the host timer enabled, its pending
    /// timer interrupt cleared and the firmware timer set to its deadline. On a
    /// timer interrupt the host timer is disabled, and a timer interrupt is
    /// made pending if the deadline of any machine has come.
    pub open spec fn trap_ops(self, trap: VmmTrap, now: u64) -> Seq<HostOp> {
        match trap {
            VmmTrap::SetTimer(timer) => seq![
                HostOp::EnableStie,
                HostOp::ClearVstip,
                HostOp::SetTimer(timer),
            ],
            VmmTrap::TimerInterruptEmulation => if self.timer_due(now) {
                seq![HostOp::DisableStie, HostOp::SetVstip]
            } else {
                seq![HostOp::DisableStie]
            },
        }
    }

    /// Whether the trap `trap` at time `now` ends the running machine's
    /// quantum: it is a timer interrupt, and the quantum is over.
    pub open spec fn trap_ends_quantum(self, trap: VmmTrap, now: u64) -> bool {
        trap is TimerInterruptEmulation && self.quantum_expired(now)
    }

    /// The scheduler after one character `c` was read from the console. The
    /// focus key moves the input focus to the next machine; the sign that
    /// nothing more waits changes nothing; any other character goes to the
    /// machine that has the focus.
    pub open spec fn console_char(self, c: usize) -> VmmView {
        if c == SBI_NO_CHAR {
            self
        } else if c == FOCUS_KEY {
            VmmView { input_vm: next_vm(self.input_vm, self.vms.len()), ..self }
        } else {
            let vm = self.vms[self.input_vm as int];
            VmmView {
                vms: self.vms.update(
                    self.input_vm as int,
                    VmView { input: vm.input.push(c), ..vm },
                ),
                ..self
            }
        }
    }

    /// The scheduler after the characters `chars` were read from the console,
    /// up to the first sign that nothing more waits.
    pub open spec fn console_stream(self, chars: Seq<usize>) -> VmmView
        decreases chars.len(),
    {
        if chars.len() == 0 || chars[0] == SBI_NO_CHAR {
            self
        } else {
            self.console_char(chars[0]).console_stream(chars.drop_first())
        }
    }
}

/// What the scheduler answers to a trap.
pub struct TrapOutcome {
    /// The operations to carry out on the host hart, in this order.
    pub ops: Vec<HostOp>,
    /// Whether the running machine's quantum is over. If so, the caller drains
    /// the console into [`VMM::dispatch_console_input`] and then calls
    /// [`VMM::switch_vm`].
    pub quantum_expired: bool,
}

/// The virtual machine manager.
pub struct VMM {
    vm_list: Vec<VM>,
    switch_vm_timer: u64,
    time_slice: u64,
    current: usize,
    input_vm: usize,
}

impl View for VMM {
    type V = VmmView;

    closed spec fn view(&self) -> VmmView {
        VmmView {
            vms: self.vm_list@.map_values(|vm: VM| vm@),
            switch_vm_timer: self.switch_vm_timer,
            time_slice: self.time_slice,
            current: self.current as nat,
            input_vm: self.input_vm as nat,
        }
    }
}

impl VMM {
    /// The invariant of the scheduler: that of its value.
    pub open spec fn wf(&self) -> bool {
        self@.wf()
    }

    /// Creates a scheduler without machines and with quanta of [`TIME_SLICE`].
    pub fn new() -> (vmm: Self)
        ensures
            vmm.wf(),
            vmm@ == (VmmView {
                vms: Seq::<VmView>::empty(),
                switch_vm_timer: u64::MAX,
                time_slice: TIME_SLICE,
                current: 0,
                input_vm: 0,
            }),
    {
        Self::with_time_slice(TIME_SLICE)
    }

    /// Creates a scheduler without machines and with quanta of `time_slice`
    /// ticks.
    pub fn with_time_slice(time_slice: u64) -> (vmm: Self)
        ensures
            vmm.wf(),
            vmm@ == (VmmView {
                vms: Seq::<VmView>::empty(),
                switch_vm_timer: u64::MAX,
                time_slice,
                current: 0,
                input_vm: 0,
            }),
    {
        let vmm = VMM {
            vm_list: Vec::new(),
            switch_vm_timer: u64::MAX,
            time_slice,
            current: 0,
            input_vm: 0,
        };
        assert(vmm@.vms =~= Seq::<VmView>::empty());
        vmm
    }

    /// Puts `vm` behind the machines that the scheduler already has.
    pub fn add_vm(&mut self, vm: VM)
        requires
            old(self).wf(),
            vm.wf(),
        ensures
            final(self).wf(),
            final(self)@ == (VmmView { vms: old(self)@.vms.push(vm@), ..old(self)@ }),
    {
        let ghost vm_view = vm@;
        self.vm_list.push(vm);
        assert(self@.vms =~= old(self)@.vms.push(vm_view));
    }

    /// Number of machines.
    pub fn vm_count(&self) -> (n: usize)
        ensures
            n == self@.vms.len(),
    {
        self.vm_list.len()
    }

    /// Index of the machine that has the hart.
    pub fn current_vm(&self) -> (id: usize)
        ensures
            id == self@.current,
    {
        self.current
    }

    /// Index of the machine that console input goes to.
    pub fn input_vm(&self) -> (id: usize)
        ensures
            id == self@.input_vm,
    {
        self.input_vm
    }

    /// The time at which the running machine's quantum ends.
    pub fn switch_vm_timer(&self) -> (timer: u64)
        ensures
            timer == self@.switch_vm_timer,
    {
        self.switch_vm_timer
    }

    /// Length of a quantum.
    pub fn time_slice(&self) -> (ticks: u64)
        ensures
            ticks == self@.time_slice,
    {
        self.time_slice
    }

    /// The machine with index `id`.
    pub fn vm(&self, id: usize) -> (vm: &VM)
        requires
            self.wf(),
            id < self@.vms.len(),
        ensures
            vm@ == self@.vms[id as int],
            vm.wf(),
    {
        &self.vm_list[id]
    }
}

impl VMM {
    /// The machine with index `id`, to work on. The scheduler afterwards
    /// holds whatever the caller made of it.
    pub fn vm_mut(&mut self, id: usize) -> (vm: &mut VM)
        requires
            old(self).wf(),
            id < old(self)@.vms.len(),
        ensures
            vm@ == old(self)@.vms[id as int],
            vm.wf(),
            final(self)@ =~= (VmmView {
                vms: old(self)@.vms.update(id as int, final(vm)@),
                ..old(self)@
            }),
    {
        &mut self.vm_list[id]
    }

    /// Begins a quantum at `now` for the machine that has the hart.
    fn set_switch_vm_timer(&mut self, now: u64) -> (ops: Vec<HostOp>)
        requires
            now + old(self)@.time_slice <= u64::MAX,
        ensures
            final(self)@ == old(self)@.rearmed(now),
            ops@ == old(self)@.rearm_ops(now),
    {
        self.switch_vm_timer = now + self.time_slice;
        let mut ops: Vec<HostOp> = Vec::new();
        ops.push(HostOp::EnableStie);
        ops.push(HostOp::SetTimer(self.switch_vm_timer));
        assert(ops@ =~= old(self)@.rearm_ops(now));
        ops
    }

    /// Starts scheduling at time `now`: the first machine gets the hart and
    /// the input focus, and its quantum begins.
    pub fn start(&mut self, now: u64) -> (ops: Vec<HostOp>)
        requires
            old(self).wf(),
            old(self)@.vms.len() > 0,
            now + old(self)@.time_slice <= u64::MAX,
        ensures
            final(self).wf(),
            final(self)@ == old(self)@.started(now),
            ops@ == old(self)@.rearm_ops(now),
    {
        self.current = 0;
        self.input_vm = 0;
        self.set_switch_vm_timer(now)
    }

    /// Starts scheduling at the time that the hart's timer shows, and returns
    /// that time. Nothing happens, and no operations are returned, if a quantum
    /// from that time on would end beyond the timer's range.
    pub fn start_now(&mut self) -> (r: (u64, Option<Vec<HostOp>>))
        requires
            old(self).wf(),
            old(self)@.vms.len() > 0,
        ensures
            final(self).wf(),
            r.1 is Some <==> r.0 + old(self)@.time_slice <= u64::MAX,
            match r.1 {
                Some(ops) => final(self)@ == old(self)@.started(r.0) && ops@ == old(
                    self,
                )@.rearm_ops(r.0),
                None => final(self)@ == old(self)@,
            },
    {
        let now: u64 = get_time();
        if now <= u64::MAX - self.time_slice {
            (now, Some(self.start(now)))
        } else {
            (now, None)
        }
    }

    /// Whether the timer deadline of some machine has come at time `now`.
    fn timer_due(&self, now: u64) -> (due: bool)
        ensures
            due == self@.timer_due(now),
    {
        let mut due: bool = false;
        let mut i: usize = 0;
        while i < self.vm_list.len()
            invariant
                i <= self.vm_list.len(),
                due == (exists|j: int| 0 <= j < i && #[trigger] self@.vms[j].timer <= now),
            decreases self.vm_list.len() - i,
        {
            if self.vm_list[i].get_timer() <= now {
                due = true;
                assert(self@.vms[i as int].timer <= now);
            }
            i = i + 1;
        }
        due
    }

    /// Answers the trap `trap`, which the running machine yielded, at time
    /// `now`.
    pub fn handle_trap(&self, trap: VmmTrap, now: u64) -> (outcome: TrapOutcome)
        ensures
            outcome.ops@ == self@.trap_ops(trap, now),
            outcome.quantum_expired == self@.trap_ends_quantum(trap, now),
    {
        let mut ops: Vec<HostOp> = Vec::new();
        match trap {
            VmmTrap::SetTimer(timer) => {
                ops.push(HostOp::EnableStie);
                ops.push(HostOp::ClearVstip);
                ops.push(HostOp::SetTimer(timer));
                assert(ops@ =~= self@.trap_ops(trap, now));
                TrapOutcome { ops, quantum_expired: false }
            },
            VmmTrap::TimerInterruptEmulation => {
                ops.push(HostOp::DisableStie);
                if self.timer_due(now) {
                    ops.push(HostOp::SetVstip);
                }
                assert(ops@ =~= self@.trap_ops(trap, now));
                TrapOutcome { ops, quantum_expired: now > self.switch_vm_timer }
            },
        }
    }

    /// Answers the trap `trap` at the time that the hart's timer shows, and
    /// returns that time with the answer.
    pub fn handle_trap_now(&self, trap: VmmTrap) -> (r: (u64, TrapOutcome))
        ensures
            r.1.ops@ == self@.trap_ops(trap, r.0),
            r.1.quantum_expired == self@.trap_ends_quantum(trap, r.0),
    {
        let now: u64 = get_time();
        (now, self.handle_trap(trap, now))
    }

    /// Takes one character `c` read from the console. Returns whether the
    /// console may hold more: `false` for the sign that nothing waits.
    pub fn console_input(&mut self, c: usize) -> (more: bool)
        requires
            old(self).wf(),
            old(self)@.vms.len() > 0,
        ensures
            final(self).wf(),
            final(self)@ == old(self)@.console_char(c),
            more == (c != SBI_NO_CHAR),
    {
        let n: usize = self.vm_list.len();
        if c == SBI_NO_CHAR {
            false
        } else if c == FOCUS_KEY {
            self.input_vm = (self.input_vm + 1) % n;
            true
        } else {
            let id: usize = self.input_vm;
            self.vm_list[id].add_char_to_input_buffer(c);
            assert(self@.vms =~= old(self)@.console_char(c).vms);
            assert forall|i: int| 0 <= i < self@.vms.len() implies #[trigger] self@.vms[i].wf() by {
                assert(old(self)@.vms[i].wf());
            }
            true
        }
    }

    /// Takes the characters `chars` read from the console, in this order, up
    /// to the first sign that nothing more waits.
    pub fn dispatch_console_input(&mut self, chars: &Vec<usize>)
        requires
            old(self).wf(),
            old(self)@.vms.len() > 0,
        ensures
            final(self).wf(),
            final(self)@ == old(self)@.console_stream(chars@),
    {
        let mut i: usize = 0;
        let mut more: bool = true;
        assert(chars@.subrange(0, chars@.len() as int) =~= chars@);
        while more && i < chars.len()
            invariant
                i <= chars.len(),
                self.wf(),
                self@.vms.len() > 0,
                more ==> self@.console_stream(chars@.subrange(i as int, chars@.len() as int))
                    == old(self)@.console_stream(chars@),
                !more ==> self@ == old(self)@.console_stream(chars@),
            decreases chars.len() - i + (if more { 1int } else { 0int }),
        {
            let ghost rest = chars@.subrange(i as int, chars@.len() as int);
            assert(rest.drop_first() =~= chars@.subrange(i as int + 1, chars@.len() as int));
            assert(rest[0] == chars@[i as int]);
            more = self.console_input(chars[i]);
            i = i + 1;
        }
        assert(chars@.subrange(chars@.len() as int, chars@.len() as int).len() == 0);
    }

    /// Ends the running machine's quantum at time `now`: the next machine in
    /// turn gets the hart, and its quantum begins.
    pub fn switch_vm(&mut self, now: u64) -> (ops: Vec<HostOp>)
        requires
            old(self).wf(),
            old(self)@.vms.len() > 0,
            now + old(self)@.time_slice <= u64::MAX,
        ensures
            final(self).wf(),
            final(self)@ == old(self)@.switched(now),
            ops@ == old(self)@.rearm_ops(now),
            old(self)@.quantum_expired(now) ==> final(self)@.switch_vm_timer > old(
                self,
            )@.switch_vm_timer,
    {
        let n: usize = self.vm_list.len();
        let ops = self.set_switch_vm_timer(now);
        self.current = (self.current + 1) % n;
        ops
    }
}

impl VMM {
    /// Ends the running machine's quantum at time `now`, as the scheduler does
    /// when a timer interrupt finds the quantum over: the characters `chars`,
    /// which the caller read from the console, go to the machines first; then
    /// the next machine in turn gets the hart, and its quantum begins.
    pub fn end_quantum(&mut self, now: u64, chars: &Vec<usize>) -> (ops: Vec<HostOp>)
        requires
            old(self).wf(),
            old(self)@.vms.len() > 0,
            now + old(self)@.time_slice <= u64::MAX,
        ensures
            final(self).wf(),
            final(self)@ == old(self)@.console_stream(chars@).switched(now),
            ops@ == old(self)@.rearm_ops(now),
    {
        proof {
            lemma_console_keeps_schedule(self@, chars@);
        }
        self.dispatch_console_input(chars);
        self.switch_vm(now)
    }
}

/// Console input changes neither the number of machines nor whose turn it is,
/// nor the quantum; it keeps the scheduler sound.
pub proof fn lemma_console_keeps_schedule(vmm: VmmView, chars: Seq<usize>)
    requires
        vmm.wf(),
        vmm.vms.len() > 0,
    ensures
        vmm.console_stream(chars).vms.len() == vmm.vms.len(),
        vmm.console_stream(chars).current == vmm.current,
        vmm.console_stream(chars).switch_vm_timer == vmm.switch_vm_timer,
        vmm.console_stream(chars).time_slice == vmm.time_slice,
        vmm.console_stream(chars).wf(),
    decreases chars.len(),
{
    if chars.len() > 0 && chars[0] != SBI_NO_CHAR {
        let next = vmm.console_char(chars[0]);
        assert forall|i: int| 0 <= i < next.vms.len() implies #[trigger] next.vms[i].wf() by {
            assert(vmm.vms[i].wf());
        }
        lemma_console_keeps_schedule(next, chars.drop_first());
    }
}

/// The end of the quantum moves forward with every rotation that is made once
/// the quantum is over.
pub proof fn lemma_switch_timer_increases(vmm: VmmView, now: u64)
    requires
        vmm.quantum_expired(now),
        now + vmm.time_slice <= u64::MAX,
    ensures
        vmm.switched(now).switch_vm_timer > vmm.switch_vm_timer,
        vmm.switched(now).switch_vm_timer == now + vmm.time_slice,
{
}

/// Rotation is round robin: `quanta` rotations after machine `id` of `n` had
/// the hart, machine `(id + quanta) % n` has it.
pub proof fn lemma_round_robin(id: nat, n: nat, quanta: nat)
    requires
        0 < n,
        id < n,
    ensures
        vm_after(id, n, quanta) == (id + quanta) % n,
    decreases quanta,
{
    if quanta > 0 {
        lemma_round_robin(id, n, (quanta - 1) as nat);
        let before = (id + quanta - 1) % (n as int);
        vstd::arithmetic::div_mod::lemma_add_mod_noop(id + quanta - 1, 1, n as int);
        vstd::arithmetic::div_mod::lemma_mod_bound(id + quanta - 1, n as int);
        if n == 1 {
            assert(before == 0);
        } else {
            vstd::arithmetic::div_mod::lemma_small_mod(1, n);
        }
        vstd::arithmetic::div_mod::lemma_mod_bound(before + 1, n as int);
        assert((id + quanta) as int % (n as int) == (before + 1) % (n as int));
    } else {
        vstd::arithmetic::div_mod::lemma_small_mod(id, n);
    }
}

/// Successive quanta go to the machines in their order, going round: after as
/// many rotations as `nows` has times, the machine that has the hart is the one
/// that many places behind the first, and the scheduler is still sound.
pub proof fn lemma_rotation_order(vmm: VmmView, nows: Seq<u64>)
    requires
        vmm.wf(),
        vmm.vms.len() > 0,
    ensures
        vmm.rotated(nows).current == (vmm.current + nows.len()) % vmm.vms.len(),
        vmm.rotated(nows).current == vm_after(vmm.current, vmm.vms.len(), nows.len()),
        vmm.rotated(nows).vms == vmm.vms,
        vmm.rotated(nows).input_vm == vmm.input_vm,
        vmm.rotated(nows).wf(),
    decreases nows.len(),
{
    lemma_round_robin(vmm.current, vmm.vms.len(), nows.len());
    if nows.len() > 0 {
        lemma_rotation_order(vmm, nows.drop_last());
        let before = vmm.rotated(nows.drop_last());
        lemma_switch_is_rotation(before, nows.last());
    }
}

/// A rotation hands the hart to the machine that follows the running one.
pub proof fn lemma_switch_is_rotation(vmm: VmmView, now: u64)
    requires
        vmm.wf(),
        vmm.vms.len() > 0,
    ensures
        vmm.switched(now).current == (vmm.current + 1) % vmm.vms.len(),
        vmm.switched(now).current == vm_after(vmm.current, vmm.vms.len(), 1),
        vmm.switched(now).current < vmm.vms.len(),
{
    reveal_with_fuel(vm_after, 2);
}

} // verus!
