//! The interrupt controller as a guest sees it: a shadow of the registers in the
//! controller's window of guest physical memory.
//!
//! A claim/complete register answers a load with the interrupt that the
//! hypervisor last claimed for its context. Every other register is plain
//! storage: a load returns what was stored last, and zero before any store.

use vstd::prelude::*;
use std::collections::BTreeMap;

verus! {

broadcast use vstd::std_specs::btree::group_btree_axioms;

/// Size in bytes of the controller's register window.
pub const PLIC_WINDOW_SIZE: usize = 0x0400_0000;

/// Offset in the window of the claim/complete register of context 0.
pub const CLAIM_COMPLETE_OFFSET: usize = 0x0020_0004;

/// Distance in bytes between the registers of one context and the next.
pub const CONTEXT_STRIDE: usize = 0x1000;

/// Number of interrupt contexts: as many as have their registers in the window.
pub const MAX_CONTEXTS: usize = 15872;

/// The context whose claim/complete register lies at `offset` in the window,
/// if a claim/complete register lies there.
pub open spec fn claim_context(offset: int) -> Option<int> {
    if CLAIM_COMPLETE_OFFSET <= offset < PLIC_WINDOW_SIZE && (offset - CLAIM_COMPLETE_OFFSET)
        % (CONTEXT_STRIDE as int) == 0 {
        Some((offset - CLAIM_COMPLETE_OFFSET) / (CONTEXT_STRIDE as int))
    } else {
        None
    }
}

/// The shadow controller as a mathematical value.
pub struct PlicView {
    /// Guest physical address at which the window starts.
    pub base: usize,
    /// For each context, the interrupt claimed for it and not yet completed;
    /// zero where there is none.
    pub claim_complete: Seq<u32>,
    /// The registers that were stored to, by their offset in the window.
    pub registers: Map<usize, u32>,
}

impl PlicView {
    /// The controller with its window at `base` before anything happened:
    /// nothing is claimed and nothing was stored.
    pub open spec fn empty(base: usize) -> PlicView {
        PlicView {
            base,
            claim_complete: Seq::new(MAX_CONTEXTS as nat, |i: int| 0u32),
            registers: Map::empty(),
        }
    }

    /// The window fits in the address space and every context has its claim.
    pub open spec fn wf(self) -> bool {
        &&& self.base + PLIC_WINDOW_SIZE <= usize::MAX
        &&& self.claim_complete.len() == MAX_CONTEXTS
    }

    /// Whether `addr` lies in the window: the start is included, the end is not.
    pub open spec fn contains(self, addr: usize) -> bool {
        self.base <= addr < self.base + PLIC_WINDOW_SIZE
    }

    /// Address of the claim/complete register of `context`.
    pub open spec fn claim_complete_addr(self, context: int) -> int {
        self.base + CLAIM_COMPLETE_OFFSET + CONTEXT_STRIDE * context
    }

    /// What a 32-bit load from `addr` returns.
    pub open spec fn read(self, addr: usize) -> u32 {
        let offset = (addr - self.base) as usize;
        match claim_context(offset as int) {
            Some(context) => self.claim_complete[context],
            None => if self.registers.contains_key(offset) {
                self.registers[offset]
            } else {
                0
            },
        }
    }

    /// The controller after a 32-bit store of `val` to `addr`. A store to a
    /// claim/complete register completes the pending claim if `val` names it,
    /// and changes nothing otherwise.
    pub open spec fn write(self, addr: usize, val: u32) -> PlicView {
        let offset = (addr - self.base) as usize;
        match claim_context(offset as int) {
            Some(context) => if self.claim_complete[context] == val {
                PlicView { claim_complete: self.claim_complete.update(context, 0), ..self }
            } else {
                self
            },
            None => PlicView { registers: self.registers.insert(offset, val), ..self },
        }
    }

    /// Whether a store to `addr` is a completion, which the real controller
    /// has to see as well.
    pub open spec fn is_completion(self, addr: usize) -> bool {
        claim_context(addr - self.base) is Some
    }

    /// The controller after the hypervisor claimed `irq` for `context`.
    pub open spec fn claim(self, context: int, irq: u32) -> PlicView {
        PlicView { claim_complete: self.claim_complete.update(context, irq), ..self }
    }
}

/// A register gives back what was stored to it.
///
/// This holds of every register in the window but the claim/complete registers,
/// which answer with the pending claim and not with the value stored. Of those
/// it holds only when nothing is pending and zero is stored.
pub proof fn lemma_load_after_store(plic: PlicView, addr: usize, val: u32)
    requires
        plic.wf(),
        plic.contains(addr),
        claim_context(addr - plic.base) matches Some(context) ==> val == 0
            && plic.claim_complete[context] == 0,
    ensures
        plic.write(addr, val).read(addr) == val,
        plic.write(addr, val).wf(),
{
}

/// A store to one register leaves every other register as it was.
pub proof fn lemma_store_elsewhere(plic: PlicView, addr: usize, val: u32, other: usize)
    requires
        plic.wf(),
        plic.contains(addr),
        plic.contains(other),
        other != addr,
    ensures
        plic.write(addr, val).read(other) == plic.read(other),
{
}

/// The shadow of one guest's interrupt controller.
pub struct PlicState {
    base: usize,
    claim_complete: Vec<u32>,
    registers: BTreeMap<usize, u32>,
}

impl View for PlicState {
    type V = PlicView;

    closed spec fn view(&self) -> PlicView {
        PlicView {
            base: self.base,
            claim_complete: self.claim_complete@,
            registers: self.registers@,
        }
    }
}

impl PlicState {
    /// The invariant of the shadow: that of its value.
    pub open spec fn wf(&self) -> bool {
        self@.wf()
    }

    /// A controller with its window at `base`, nothing claimed and nothing
    /// stored.
    pub fn new(base: usize) -> (plic: Self)
        requires
            base + PLIC_WINDOW_SIZE <= usize::MAX,
        ensures
            plic.wf(),
            plic@ == PlicView::empty(base),
    {
        let claim_complete: Vec<u32> = vec![0u32; MAX_CONTEXTS];
        let plic = PlicState { base, claim_complete, registers: BTreeMap::new() };
        assert(plic@.claim_complete =~= PlicView::empty(base).claim_complete);
        plic
    }

    /// Guest physical address at which the window starts.
    pub fn base(&self) -> (base: usize)
        ensures
            base == self@.base,
    {
        self.base
    }

    /// Whether `addr` lies in the window.
    pub fn contains(&self, addr: usize) -> (inside: bool)
        ensures
            inside == self@.contains(addr),
    {
        addr >= self.base && addr - self.base < PLIC_WINDOW_SIZE
    }

    /// Address of the claim/complete register of `context`.
    pub fn claim_complete_addr(&self, context: usize) -> (addr: usize)
        requires
            self.wf(),
            context < MAX_CONTEXTS,
        ensures
            addr == self@.claim_complete_addr(context as int),
            self@.contains(addr),
            claim_context(addr - self@.base) == Some(context as int),
    {
        self.base + CLAIM_COMPLETE_OFFSET + CONTEXT_STRIDE * context
    }

    /// The interrupt claimed for `context` and not yet completed, zero if none.
    pub fn claim_complete(&self, context: usize) -> (irq: u32)
        requires
            self.wf(),
            context < MAX_CONTEXTS,
        ensures
            irq == self@.claim_complete[context as int],
    {
        self.claim_complete[context]
    }

    /// Records that the hypervisor claimed `irq` for `context`.
    pub fn set_claim_complete(&mut self, context: usize, irq: u32)
        requires
            old(self).wf(),
            context < MAX_CONTEXTS,
        ensures
            final(self).wf(),
            final(self)@ == old(self)@.claim(context as int, irq),
    {
        self.claim_complete[context] = irq;
    }

    /// Serves a 32-bit load from `addr`.
    pub fn read_u32(&self, addr: usize) -> (val: u32)
        requires
            self.wf(),
            self@.contains(addr),
        ensures
            val == self@.read(addr),
    {
        let offset: usize = addr - self.base;
        if offset >= CLAIM_COMPLETE_OFFSET && (offset - CLAIM_COMPLETE_OFFSET) % CONTEXT_STRIDE
            == 0 {
            let context: usize = (offset - CLAIM_COMPLETE_OFFSET) / CONTEXT_STRIDE;
            self.claim_complete[context]
        } else {
            match self.registers.get(&offset) {
                Some(val) => *val,
                None => 0,
            }
        }
    }

    /// Serves a 32-bit store of `val` to `addr`. The result says whether the
    /// store is a completion, which the caller has to pass on to the real
    /// controller.
    pub fn write_u32(&mut self, addr: usize, val: u32) -> (completion: bool)
        requires
            old(self).wf(),
            old(self)@.contains(addr),
        ensures
            final(self).wf(),
            final(self)@ == old(self)@.write(addr, val),
            completion == old(self)@.is_completion(addr),
    {
        let offset: usize = addr - self.base;
        if offset >= CLAIM_COMPLETE_OFFSET && (offset - CLAIM_COMPLETE_OFFSET) % CONTEXT_STRIDE
            == 0 {
            let context: usize = (offset - CLAIM_COMPLETE_OFFSET) / CONTEXT_STRIDE;
            if self.claim_complete[context] == val {
                self.claim_complete[context] = 0;
            }
            true
        } else {
            self.registers.insert(offset, val);
            false
        }
    }
}

} // verus!
