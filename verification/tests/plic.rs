use hypercraft::plic::{
    PlicState, CLAIM_COMPLETE_OFFSET, CONTEXT_STRIDE, MAX_CONTEXTS, PLIC_WINDOW_SIZE,
};

const BASE: usize = 0x0C00_0000;

#[test]
fn window_start_is_inside() {
    let plic = PlicState::new(BASE);
    assert!(plic.contains(BASE));
}

#[test]
fn window_end_is_outside() {
    let plic = PlicState::new(BASE);
    assert!(!plic.contains(BASE + 0x0400_0000));
    assert!(plic.contains(BASE + 0x0400_0000 - 1));
}

#[test]
fn addresses_below_the_window_are_outside() {
    let plic = PlicState::new(BASE);
    assert!(!plic.contains(BASE - 1));
    assert!(!plic.contains(0));
    assert!(!plic.contains(usize::MAX));
}

#[test]
fn plic_constants() {
    assert_eq!(PLIC_WINDOW_SIZE, 0x0400_0000);
    assert_eq!(CLAIM_COMPLETE_OFFSET, 0x20_0004);
    assert_eq!(CONTEXT_STRIDE, 0x1000);
    assert_eq!(CLAIM_COMPLETE_OFFSET - 4 + CONTEXT_STRIDE * MAX_CONTEXTS, PLIC_WINDOW_SIZE);
}

#[test]
fn base_is_kept() {
    let plic = PlicState::new(0x1000_0000);
    assert_eq!(plic.base(), 0x1000_0000);
    assert!(plic.contains(0x1000_0000));
    assert!(!plic.contains(BASE));
}

#[test]
fn unwritten_register_reads_zero() {
    let plic = PlicState::new(BASE);
    assert_eq!(plic.read_u32(BASE), 0);
    assert_eq!(plic.read_u32(BASE + 0x2000), 0);
    assert_eq!(plic.read_u32(BASE + 0x20_1004), 0);
    assert_eq!(plic.read_u32(BASE + 0x03FF_FFFC), 0);
}

#[test]
fn register_reads_back_last_write() {
    let mut plic = PlicState::new(BASE);
    assert!(!plic.write_u32(BASE + 0x20_2000, 7));
    assert_eq!(plic.read_u32(BASE + 0x20_2000), 7);
    assert!(!plic.write_u32(BASE + 0x20_2000, 0xffff_ffff));
    assert_eq!(plic.read_u32(BASE + 0x20_2000), 0xffff_ffff);
    assert!(!plic.write_u32(BASE + 0x20_2000, 0));
    assert_eq!(plic.read_u32(BASE + 0x20_2000), 0);
}

#[test]
fn write_leaves_other_registers_alone() {
    let mut plic = PlicState::new(BASE);
    plic.write_u32(BASE + 4, 1);
    plic.write_u32(BASE + 8, 2);
    assert_eq!(plic.read_u32(BASE + 4), 1);
    assert_eq!(plic.read_u32(BASE + 8), 2);
    assert_eq!(plic.read_u32(BASE + 12), 0);
    assert_eq!(plic.read_u32(BASE), 0);
}

#[test]
fn first_and_last_register_of_the_window_are_storage() {
    let mut plic = PlicState::new(BASE);
    plic.write_u32(BASE, 0x11);
    plic.write_u32(BASE + 0x0400_0000 - 1, 0x22);
    assert_eq!(plic.read_u32(BASE), 0x11);
    assert_eq!(plic.read_u32(BASE + 0x0400_0000 - 1), 0x22);
}

#[test]
fn claim_complete_address_of_each_context() {
    let plic = PlicState::new(BASE);
    assert_eq!(plic.claim_complete_addr(0), 0x0C20_0004);
    assert_eq!(plic.claim_complete_addr(1), 0x0C20_1004);
    assert_eq!(plic.claim_complete_addr(2), 0x0C20_2004);
    assert_eq!(plic.claim_complete_addr(MAX_CONTEXTS - 1), 0x0FFF_F004);
    assert!(plic.contains(plic.claim_complete_addr(MAX_CONTEXTS - 1)));
}

#[test]
fn claim_register_reads_the_claimed_interrupt() {
    let mut plic = PlicState::new(BASE);
    plic.set_claim_complete(1, 5);
    assert_eq!(plic.claim_complete(1), 5);
    assert_eq!(plic.read_u32(0x0C20_1004), 5);
    assert_eq!(plic.read_u32(0x0C20_0004), 0);
    assert_eq!(plic.read_u32(0x0C20_2004), 0);
    assert_eq!(plic.claim_complete(0), 0);
}

#[test]
fn completion_of_the_claim_clears_it() {
    let mut plic = PlicState::new(BASE);
    plic.set_claim_complete(1, 5);
    assert!(plic.write_u32(0x0C20_1004, 5));
    assert_eq!(plic.claim_complete(1), 0);
    assert_eq!(plic.read_u32(0x0C20_1004), 0);
}

#[test]
fn completion_of_another_interrupt_keeps_the_claim() {
    let mut plic = PlicState::new(BASE);
    plic.set_claim_complete(1, 5);
    assert!(plic.write_u32(0x0C20_1004, 6));
    assert_eq!(plic.claim_complete(1), 5);
    assert_eq!(plic.read_u32(0x0C20_1004), 5);
}

#[test]
fn completion_touches_one_context_only() {
    let mut plic = PlicState::new(BASE);
    plic.set_claim_complete(1, 5);
    plic.set_claim_complete(2, 5);
    assert!(plic.write_u32(plic.claim_complete_addr(2), 5));
    assert_eq!(plic.claim_complete(1), 5);
    assert_eq!(plic.claim_complete(2), 0);
}

#[test]
fn threshold_register_is_no_claim_register() {
    let mut plic = PlicState::new(BASE);
    plic.set_claim_complete(1, 9);
    assert!(!plic.write_u32(0x0C20_1000, 3));
    assert_eq!(plic.read_u32(0x0C20_1000), 3);
    assert_eq!(plic.read_u32(0x0C20_1004), 9);
    assert!(!plic.write_u32(0x0C20_1005, 4));
    assert_eq!(plic.read_u32(0x0C20_1005), 4);
    assert_eq!(plic.claim_complete(1), 9);
}

#[test]
fn last_context_has_a_claim_register() {
    let mut plic = PlicState::new(BASE);
    let last = MAX_CONTEXTS - 1;
    plic.set_claim_complete(last, 77);
    assert_eq!(plic.read_u32(plic.claim_complete_addr(last)), 77);
    assert!(plic.write_u32(plic.claim_complete_addr(last), 77));
    assert_eq!(plic.claim_complete(last), 0);
}
