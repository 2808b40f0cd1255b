use hypercraft::regs::{GeneralPurposeRegisters, GprIndex, GPR_COUNT};
use hypercraft::vcpu::{VCpu, VmCpus};

#[test]
fn gpr_index_follows_the_abi_numbering() {
    assert_eq!(GprIndex::Zero.index(), 0);
    assert_eq!(GprIndex::RA.index(), 1);
    assert_eq!(GprIndex::SP.index(), 2);
    assert_eq!(GprIndex::S0.index(), 8);
    assert_eq!(GprIndex::A0.index(), 10);
    assert_eq!(GprIndex::A1.index(), 11);
    assert_eq!(GprIndex::A7.index(), 17);
    assert_eq!(GprIndex::S2.index(), 18);
    assert_eq!(GprIndex::S11.index(), 27);
    assert_eq!(GprIndex::T3.index(), 28);
    assert_eq!(GprIndex::T6.index(), 31);
}

#[test]
fn gpr_from_raw_inverts_index() {
    let mut raw: u32 = 0;
    while raw < GPR_COUNT as u32 {
        let idx = GprIndex::from_raw(raw).unwrap();
        assert_eq!(idx.index(), raw as usize);
        raw += 1;
    }
}

#[test]
fn gpr_from_raw_rejects_numbers_from_32() {
    assert_eq!(GprIndex::from_raw(32), None);
    assert_eq!(GprIndex::from_raw(33), None);
    assert_eq!(GprIndex::from_raw(u32::MAX), None);
    assert_eq!(GprIndex::from_raw(31), Some(GprIndex::T6));
}

#[test]
fn new_registers_are_zero() {
    let regs = GeneralPurposeRegisters::new();
    let mut raw: u32 = 0;
    while raw < 32 {
        assert_eq!(regs.reg(GprIndex::from_raw(raw).unwrap()), 0);
        raw += 1;
    }
}

#[test]
fn set_reg_changes_one_register() {
    let mut regs = GeneralPurposeRegisters::new();
    regs.set_reg(GprIndex::A0, 0xdead_beef);
    regs.set_reg(GprIndex::T6, 7);
    assert_eq!(regs.reg(GprIndex::A0), 0xdead_beef);
    assert_eq!(regs.reg(GprIndex::T6), 7);
    assert_eq!(regs.reg(GprIndex::A1), 0);
    assert_eq!(regs.reg(GprIndex::RA), 0);
    regs.set_reg(GprIndex::A0, 1);
    assert_eq!(regs.reg(GprIndex::A0), 1);
}

#[test]
fn write_to_x0_is_dropped() {
    let mut regs = GeneralPurposeRegisters::new();
    regs.set_reg(GprIndex::Zero, 55);
    assert_eq!(regs.reg(GprIndex::Zero), 0);
    assert_eq!(regs.reg(GprIndex::RA), 0);
}

#[test]
fn vcpu_starts_at_its_entry() {
    let vcpu = VCpu::new(0x9000_0000);
    assert_eq!(vcpu.pc(), 0x9000_0000);
    assert_eq!(vcpu.page_map(), 0);
    let mut regs = GeneralPurposeRegisters::new();
    regs.set_reg(GprIndex::A3, 9);
    vcpu.save_gprs(&mut regs);
    assert_eq!(regs.reg(GprIndex::A3), 0);
}

#[test]
fn vcpu_advance_pc_adds_the_length() {
    let mut vcpu = VCpu::new(0x8020_0000);
    vcpu.advance_pc(4);
    assert_eq!(vcpu.pc(), 0x8020_0004);
    vcpu.advance_pc(2);
    assert_eq!(vcpu.pc(), 0x8020_0006);
}

#[test]
fn vcpu_advance_pc_wraps_at_the_end_of_the_address_space() {
    let mut vcpu = VCpu::new(usize::MAX - 1);
    vcpu.advance_pc(4);
    assert_eq!(vcpu.pc(), 2);
}

#[test]
fn vcpu_restore_then_save_gives_the_registers_back() {
    let mut vcpu = VCpu::new(0);
    let mut regs = GeneralPurposeRegisters::new();
    regs.set_reg(GprIndex::SP, 0x1000);
    regs.set_reg(GprIndex::A5, 0x55);
    vcpu.restore_gprs(&regs);
    let mut out = GeneralPurposeRegisters::new();
    vcpu.save_gprs(&mut out);
    let mut raw: u32 = 0;
    while raw < 32 {
        let idx = GprIndex::from_raw(raw).unwrap();
        assert_eq!(out.reg(idx), regs.reg(idx));
        raw += 1;
    }
}

#[test]
fn vcpu_init_page_map_keeps_pc() {
    let mut vcpu = VCpu::new(0x4000);
    vcpu.init_page_map(0x8000_0000_0008_1234);
    assert_eq!(vcpu.page_map(), 0x8000_0000_0008_1234);
    assert_eq!(vcpu.pc(), 0x4000);
}

#[test]
fn vcpus_are_known_by_position() {
    let mut vcpus = VmCpus::new();
    assert_eq!(vcpus.len(), 0);
    assert!(vcpus.get_vcpu(0).is_none());
    assert_eq!(vcpus.add_vcpu(VCpu::new(0x100)), 0);
    assert_eq!(vcpus.add_vcpu(VCpu::new(0x200)), 1);
    assert_eq!(vcpus.len(), 2);
    assert_eq!(vcpus.get_vcpu(0).unwrap().pc(), 0x100);
    assert_eq!(vcpus.get_vcpu(1).unwrap().pc(), 0x200);
    assert!(vcpus.get_vcpu(2).is_none());
    vcpus.set_vcpu(0, VCpu::new(0x300));
    assert_eq!(vcpus.get_vcpu(0).unwrap().pc(), 0x300);
    assert_eq!(vcpus.get_vcpu(1).unwrap().pc(), 0x200);
}
