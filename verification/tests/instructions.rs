use cpu::{
    MemMap, Operand, Registers, StackBoundary, BREAK, CARRY, CPU, DECIMAL, INTERRUPT, NEGATIVE,
    OVERFLOW, UNUSED, ZERO,
};

fn cpu_with(pc: u16, a: u8, x: u8, y: u8, p: u8, s: u8) -> CPU {
    let mut cpu = CPU::new();
    cpu.set_registers(Registers { pc, s, p, a, x, y });
    cpu
}

fn flag(cpu: &CPU, mask: u8) -> bool {
    cpu.registers().p & mask != 0
}

#[test]
fn new_cpu_has_power_on_registers() {
    let cpu = CPU::new();
    assert_eq!(cpu.registers(), Registers { pc: 0, s: 0xFD, p: 0, a: 0, x: 0, y: 0 });
    assert_eq!(cpu.cycles(), 0);
    assert_eq!(cpu.read(0xFFFE), 0);
}

#[test]
fn ldx_zero_sets_zero_and_clears_negative() {
    let mut cpu = cpu_with(0, 0, 0x55, 0, NEGATIVE | CARRY | OVERFLOW, 0xFD);
    cpu.LDX(0x00);
    assert_eq!(cpu.registers().x, 0x00);
    assert!(flag(&cpu, ZERO));
    assert!(!flag(&cpu, NEGATIVE));
    assert!(flag(&cpu, CARRY));
    assert!(flag(&cpu, OVERFLOW));
}

#[test]
fn ldx_0x80_sets_negative_and_clears_zero() {
    let mut cpu = cpu_with(0, 0, 0, 0, ZERO, 0xFD);
    cpu.LDX(0x80);
    assert_eq!(cpu.registers().x, 0x80);
    assert!(flag(&cpu, NEGATIVE));
    assert!(!flag(&cpu, ZERO));
    assert_eq!(cpu.registers().p, 0x80);
}

#[test]
fn ldx_0x01_clears_zero_and_negative() {
    let mut cpu = cpu_with(0, 0, 0, 0, ZERO | NEGATIVE, 0xFD);
    cpu.LDX(0x01);
    assert_eq!(cpu.registers().x, 0x01);
    assert_eq!(cpu.registers().p, 0x00);
}

#[test]
fn lda_and_ldy_load_and_set_flags() {
    let mut cpu = cpu_with(0x1234, 1, 2, 3, 0x24, 0xFD);
    cpu.LDA(0xFF);
    assert_eq!(cpu.registers(), Registers { pc: 0x1234, s: 0xFD, p: 0xA4, a: 0xFF, x: 2, y: 3 });
    cpu.LDY(0x00);
    assert_eq!(cpu.registers(), Registers { pc: 0x1234, s: 0xFD, p: 0x26, a: 0xFF, x: 2, y: 0 });
}

#[test]
fn stores_write_the_register_and_touch_no_flag() {
    let mut cpu = cpu_with(0, 0x11, 0x22, 0x33, 0xE3, 0xFD);
    cpu.STA(0x0010);
    cpu.STX(0x0011);
    cpu.STY(0x0812);
    assert_eq!(cpu.read(0x0010), 0x11);
    assert_eq!(cpu.read(0x0011), 0x22);
    assert_eq!(cpu.read(0x0012), 0x33);
    assert_eq!(cpu.registers(), Registers { pc: 0, s: 0xFD, p: 0xE3, a: 0x11, x: 0x22, y: 0x33 });
}

#[test]
fn transfers() {
    let mut cpu = cpu_with(0, 0x80, 0, 0, 0, 0xFD);
    cpu.TAX();
    assert_eq!(cpu.registers().x, 0x80);
    assert_eq!(cpu.registers().p, NEGATIVE);
    cpu.LDA(0x00);
    cpu.TAY();
    assert_eq!(cpu.registers().y, 0x00);
    assert_eq!(cpu.registers().p, ZERO);
    cpu.TXA();
    assert_eq!(cpu.registers().a, 0x80);
    assert_eq!(cpu.registers().p, NEGATIVE);
    cpu.LDY(0x07);
    cpu.TYA();
    assert_eq!(cpu.registers().a, 0x07);
    assert_eq!(cpu.registers().p, 0);
    cpu.TSX();
    assert_eq!(cpu.registers().x, 0xFD);
    assert_eq!(cpu.registers().p, NEGATIVE);
}

#[test]
fn txs_changes_no_flag() {
    let mut cpu = cpu_with(0, 0, 0x00, 0, 0x24, 0xFD);
    cpu.TXS();
    assert_eq!(cpu.registers().s, 0x00);
    assert_eq!(cpu.registers().p, 0x24);
}

#[test]
fn register_increments_wrap() {
    let mut cpu = cpu_with(0, 0, 0xFF, 0x7F, 0, 0xFD);
    cpu.INX();
    assert_eq!(cpu.registers().x, 0x00);
    assert_eq!(cpu.registers().p, ZERO);
    cpu.INY();
    assert_eq!(cpu.registers().y, 0x80);
    assert_eq!(cpu.registers().p, NEGATIVE);
    cpu.DEX();
    assert_eq!(cpu.registers().x, 0xFF);
    assert_eq!(cpu.registers().p, NEGATIVE);
    cpu.DEY();
    assert_eq!(cpu.registers().y, 0x7F);
    assert_eq!(cpu.registers().p, 0);
}

#[test]
fn memory_increments_wrap() {
    let mut cpu = CPU::new();
    cpu.write(0x0040, 0xFF);
    cpu.INC(0x0040);
    assert_eq!(cpu.read(0x0040), 0x00);
    assert_eq!(cpu.registers().p, ZERO);
    cpu.DEC(0x0040);
    assert_eq!(cpu.read(0x0040), 0xFF);
    assert_eq!(cpu.registers().p, NEGATIVE);
    cpu.DEC(0x0040);
    assert_eq!(cpu.read(0x0040), 0xFE);
}

#[test]
fn logic_operations() {
    let mut cpu = cpu_with(0, 0b1100_1010, 0, 0, CARRY, 0xFD);
    cpu.AND(0b1010_0110);
    assert_eq!(cpu.registers().a, 0b1000_0010);
    assert_eq!(cpu.registers().p, NEGATIVE | CARRY);
    cpu.ORA(0b0000_0101);
    assert_eq!(cpu.registers().a, 0b1000_0111);
    cpu.EOR(0b1000_0111);
    assert_eq!(cpu.registers().a, 0);
    assert_eq!(cpu.registers().p, ZERO | CARRY);
}

#[test]
fn bit_copies_bits_6_and_7() {
    let mut cpu = cpu_with(0, 0x01, 0, 0, CARRY, 0xFD);
    cpu.BIT(0xC0);
    assert_eq!(cpu.registers().a, 0x01);
    assert_eq!(cpu.registers().p, ZERO | OVERFLOW | NEGATIVE | CARRY);
    cpu.BIT(0x01);
    assert_eq!(cpu.registers().p, CARRY);
    cpu.BIT(0x41);
    assert_eq!(cpu.registers().p, OVERFLOW | CARRY);
}

#[test]
fn adc_without_carry() {
    let mut cpu = cpu_with(0, 0x10, 0, 0, 0, 0xFD);
    cpu.ADC(0x22);
    assert_eq!(cpu.registers().a, 0x32);
    assert_eq!(cpu.registers().p, 0);
}

#[test]
fn adc_adds_the_carry_in() {
    let mut cpu = cpu_with(0, 0x10, 0, 0, CARRY, 0xFD);
    cpu.ADC(0x22);
    assert_eq!(cpu.registers().a, 0x33);
    assert_eq!(cpu.registers().p, 0);
}

#[test]
fn adc_carry_out() {
    let mut cpu = cpu_with(0, 0xFF, 0, 0, 0, 0xFD);
    cpu.ADC(0x01);
    assert_eq!(cpu.registers().a, 0x00);
    assert_eq!(cpu.registers().p, CARRY | ZERO);
}

#[test]
fn adc_signed_overflow_positive() {
    let mut cpu = cpu_with(0, 0x50, 0, 0, 0, 0xFD);
    cpu.ADC(0x50);
    assert_eq!(cpu.registers().a, 0xA0);
    assert_eq!(cpu.registers().p, OVERFLOW | NEGATIVE);
}

#[test]
fn adc_signed_overflow_negative() {
    let mut cpu = cpu_with(0, 0x80, 0, 0, 0, 0xFD);
    cpu.ADC(0xFF);
    assert_eq!(cpu.registers().a, 0x7F);
    assert_eq!(cpu.registers().p, OVERFLOW | CARRY);
}

#[test]
fn adc_mixed_signs_never_overflow() {
    let mut cpu = cpu_with(0, 0x7F, 0, 0, CARRY, 0xFD);
    cpu.ADC(0x80);
    assert_eq!(cpu.registers().a, 0x00);
    assert_eq!(cpu.registers().p, CARRY | ZERO);
}

#[test]
fn adc_ignores_decimal() {
    let mut cpu = cpu_with(0, 0x09, 0, 0, DECIMAL, 0xFD);
    cpu.ADC(0x01);
    assert_eq!(cpu.registers().a, 0x0A);
    assert_eq!(cpu.registers().p, DECIMAL);
}

#[test]
fn sbc_without_borrow() {
    let mut cpu = cpu_with(0, 0x50, 0, 0, CARRY, 0xFD);
    cpu.SBC(0x20);
    assert_eq!(cpu.registers().a, 0x30);
    assert_eq!(cpu.registers().p, CARRY);
}

#[test]
fn sbc_with_borrow_in() {
    let mut cpu = cpu_with(0, 0x50, 0, 0, 0, 0xFD);
    cpu.SBC(0x20);
    assert_eq!(cpu.registers().a, 0x2F);
    assert_eq!(cpu.registers().p, CARRY);
}

#[test]
fn sbc_borrow_out() {
    let mut cpu = cpu_with(0, 0x20, 0, 0, CARRY, 0xFD);
    cpu.SBC(0x30);
    assert_eq!(cpu.registers().a, 0xF0);
    assert_eq!(cpu.registers().p, NEGATIVE);
}

#[test]
fn sbc_signed_overflow() {
    let mut cpu = cpu_with(0, 0x80, 0, 0, CARRY, 0xFD);
    cpu.SBC(0x01);
    assert_eq!(cpu.registers().a, 0x7F);
    assert_eq!(cpu.registers().p, OVERFLOW | CARRY);
    let mut cpu = cpu_with(0, 0x7F, 0, 0, CARRY, 0xFD);
    cpu.SBC(0xFF);
    assert_eq!(cpu.registers().a, 0x80);
    assert_eq!(cpu.registers().p, OVERFLOW | NEGATIVE);
}

#[test]
fn sbc_equal_operands_give_zero() {
    let mut cpu = cpu_with(0, 0x42, 0, 0, CARRY, 0xFD);
    cpu.SBC(0x42);
    assert_eq!(cpu.registers().a, 0x00);
    assert_eq!(cpu.registers().p, CARRY | ZERO);
}

#[test]
fn compares() {
    let mut cpu = cpu_with(0, 0x40, 0x10, 0xF0, 0, 0xFD);
    cpu.CMP(0x40);
    assert_eq!(cpu.registers().p, CARRY | ZERO);
    cpu.CMP(0x41);
    assert_eq!(cpu.registers().p, NEGATIVE);
    cpu.CMP(0x3F);
    assert_eq!(cpu.registers().p, CARRY);
    cpu.CPX(0x20);
    assert_eq!(cpu.registers().p, NEGATIVE);
    cpu.CPX(0x10);
    assert_eq!(cpu.registers().p, CARRY | ZERO);
    cpu.CPY(0x10);
    assert_eq!(cpu.registers().p, CARRY | NEGATIVE);
    assert_eq!(cpu.registers().a, 0x40);
    assert_eq!(cpu.registers().x, 0x10);
    assert_eq!(cpu.registers().y, 0xF0);
}

#[test]
fn asl_shifts_bit_7_into_carry() {
    let mut cpu = cpu_with(0, 0x81, 0, 0, 0, 0xFD);
    cpu.ASL(Operand::Accumulator);
    assert_eq!(cpu.registers().a, 0x02);
    assert_eq!(cpu.registers().p, CARRY);
    cpu.write(0x0020, 0x40);
    cpu.ASL(Operand::Address(0x0020));
    assert_eq!(cpu.read(0x0020), 0x80);
    assert_eq!(cpu.registers().p, NEGATIVE);
    assert_eq!(cpu.registers().a, 0x02);
}

#[test]
fn lsr_shifts_bit_0_into_carry() {
    let mut cpu = cpu_with(0, 0x01, 0, 0, NEGATIVE, 0xFD);
    cpu.LSR(Operand::Accumulator);
    assert_eq!(cpu.registers().a, 0x00);
    assert_eq!(cpu.registers().p, CARRY | ZERO);
    cpu.write(0x0300, 0xFE);
    cpu.LSR(Operand::Address(0x0300));
    assert_eq!(cpu.read(0x0300), 0x7F);
    assert_eq!(cpu.registers().p, 0);
}

#[test]
fn rol_rotates_through_carry() {
    let mut cpu = cpu_with(0, 0x80, 0, 0, CARRY, 0xFD);
    cpu.ROL(Operand::Accumulator);
    assert_eq!(cpu.registers().a, 0x01);
    assert_eq!(cpu.registers().p, CARRY);
    cpu.ROL(Operand::Accumulator);
    assert_eq!(cpu.registers().a, 0x03);
    assert_eq!(cpu.registers().p, 0);
    cpu.write(0x0021, 0x40);
    cpu.ROL(Operand::Address(0x0021));
    assert_eq!(cpu.read(0x0021), 0x80);
    assert_eq!(cpu.registers().p, NEGATIVE);
}

#[test]
fn ror_rotates_through_carry() {
    let mut cpu = cpu_with(0, 0x01, 0, 0, CARRY, 0xFD);
    cpu.ROR(Operand::Accumulator);
    assert_eq!(cpu.registers().a, 0x80);
    assert_eq!(cpu.registers().p, CARRY | NEGATIVE);
    cpu.ROR(Operand::Accumulator);
    assert_eq!(cpu.registers().a, 0xC0);
    assert_eq!(cpu.registers().p, NEGATIVE);
    cpu.write(0x0022, 0x01);
    cpu.ROR(Operand::Address(0x0022));
    assert_eq!(cpu.read(0x0022), 0x00);
    assert_eq!(cpu.registers().p, CARRY | ZERO);
}

#[test]
fn flag_instructions_touch_one_flag() {
    let mut cpu = cpu_with(0x1234, 1, 2, 3, 0x00, 0xFD);
    cpu.SEC();
    assert_eq!(cpu.registers().p, CARRY);
    cpu.SEI();
    assert_eq!(cpu.registers().p, CARRY | INTERRUPT);
    cpu.SED();
    assert_eq!(cpu.registers().p, CARRY | INTERRUPT | DECIMAL);
    cpu.CLC();
    assert_eq!(cpu.registers().p, INTERRUPT | DECIMAL);
    cpu.CLI();
    assert_eq!(cpu.registers().p, DECIMAL);
    cpu.CLD();
    assert_eq!(cpu.registers().p, 0);
    cpu.set_registers(Registers { pc: 0x1234, s: 0xFD, p: 0xFF, a: 1, x: 2, y: 3 });
    cpu.CLV();
    assert_eq!(cpu.registers(), Registers { pc: 0x1234, s: 0xFD, p: 0xBF, a: 1, x: 2, y: 3 });
}

#[test]
fn flag_helpers() {
    let mut cpu = CPU::new();
    assert!(!cpu.is_carry_set());
    cpu.set_carry_flag();
    assert!(cpu.is_carry_set());
    assert!(cpu.is_flag_set(CARRY));
    cpu.set_zero_flag();
    cpu.set_neg_flag();
    assert_eq!(cpu.registers().p, CARRY | ZERO | NEGATIVE);
    cpu.clear_carry_flag();
    assert_eq!(cpu.registers().p, ZERO | NEGATIVE);
    cpu.set_flag(OVERFLOW, true);
    cpu.set_flag(ZERO, false);
    assert_eq!(cpu.registers().p, OVERFLOW | NEGATIVE);
    cpu.update_zero_negative(0);
    assert_eq!(cpu.registers().p, OVERFLOW | ZERO);
}

#[test]
fn bcs_branches_only_on_carry() {
    let mut cpu = cpu_with(0xC731, 0, 0, 0, CARRY, 0xFD);
    cpu.BCS(4);
    assert_eq!(cpu.registers().pc, 0xC735);
    let mut cpu = cpu_with(0xC731, 0, 0, 0, 0xFE, 0xFD);
    cpu.BCS(4);
    assert_eq!(cpu.registers().pc, 0xC731);
}

#[test]
fn bcs_full_offset_range() {
    let mut cpu = cpu_with(0x8000, 0, 0, 0, CARRY, 0xFD);
    cpu.BCS(127);
    assert_eq!(cpu.registers().pc, 0x807F);
    let mut cpu = cpu_with(0x8000, 0, 0, 0, CARRY, 0xFD);
    cpu.BCS(-128);
    assert_eq!(cpu.registers().pc, 0x7F80);
    let mut cpu = cpu_with(0x8000, 0, 0, 0, CARRY, 0xFD);
    cpu.BCS(0);
    assert_eq!(cpu.registers().pc, 0x8000);
}

#[test]
fn bcs_wraps_around_the_address_space() {
    let mut cpu = cpu_with(0xFFF0, 0, 0, 0, CARRY, 0xFD);
    cpu.BCS(0x20);
    assert_eq!(cpu.registers().pc, 0x0010);
    let mut cpu = cpu_with(0x0010, 0, 0, 0, CARRY, 0xFD);
    cpu.BCS(-0x20);
    assert_eq!(cpu.registers().pc, 0xFFF0);
}

#[test]
fn each_branch_tests_its_flag() {
    let mut cpu = cpu_with(0x1000, 0, 0, 0, 0x00, 0xFD);
    cpu.BCC(2);
    assert_eq!(cpu.registers().pc, 0x1002);
    cpu.BNE(2);
    assert_eq!(cpu.registers().pc, 0x1004);
    cpu.BPL(2);
    assert_eq!(cpu.registers().pc, 0x1006);
    cpu.BVC(2);
    assert_eq!(cpu.registers().pc, 0x1008);
    cpu.BCS(2);
    cpu.BEQ(2);
    cpu.BMI(2);
    cpu.BVS(2);
    assert_eq!(cpu.registers().pc, 0x1008);
    cpu.set_registers(Registers { pc: 0x1000, s: 0xFD, p: 0xFF, a: 0, x: 0, y: 0 });
    cpu.BCC(2);
    cpu.BNE(2);
    cpu.BPL(2);
    cpu.BVC(2);
    assert_eq!(cpu.registers().pc, 0x1000);
    cpu.BCS(-2);
    assert_eq!(cpu.registers().pc, 0x0FFE);
    cpu.BEQ(-2);
    assert_eq!(cpu.registers().pc, 0x0FFC);
    cpu.BMI(-2);
    assert_eq!(cpu.registers().pc, 0x0FFA);
    cpu.BVS(-2);
    assert_eq!(cpu.registers().pc, 0x0FF8);
    assert_eq!(cpu.registers().p, 0xFF);
}

#[test]
fn jmp_sets_the_program_counter() {
    let mut cpu = cpu_with(0xC003, 1, 2, 3, 0x24, 0xFD);
    cpu.JMP(0xC5F5);
    assert_eq!(cpu.registers(), Registers { pc: 0xC5F5, s: 0xFD, p: 0x24, a: 1, x: 2, y: 3 });
}

#[test]
fn jsr_pushes_the_return_address_minus_one() {
    let mut cpu = cpu_with(0xC600, 0, 0, 0, 0x24, 0xFD);
    cpu.JSR(0xC72D);
    assert_eq!(cpu.registers().pc, 0xC72D);
    assert_eq!(cpu.registers().s, 0xFB);
    assert_eq!(cpu.read(0x01FD), 0xC5);
    assert_eq!(cpu.read(0x01FC), 0xFF);
    assert_eq!(cpu.registers().p, 0x24);
}

#[test]
fn jsr_then_rts_returns_behind_the_call() {
    let mut cpu = cpu_with(0xC600, 0, 0, 0, 0x24, 0xFD);
    cpu.JSR(0xC72D);
    cpu.RTS();
    assert_eq!(cpu.registers().pc, 0xC600);
    assert_eq!(cpu.registers().s, 0xFD);
}

#[test]
fn jsr_then_rts_at_the_edges() {
    for (pc, s, target) in [
        (0x0000u16, 0xFFu8, 0xFFFFu16),
        (0xFFFF, 0x02, 0x0000),
        (0x0100, 0x01, 0x01FF),
        (0x8003, 0x00, 0x8000),
        (0x1234, 0x80, 0x0180),
    ] {
        let mut cpu = cpu_with(pc, 0, 0, 0, 0, s);
        cpu.JSR(target);
        assert_eq!(cpu.registers().pc, target);
        assert_eq!(cpu.registers().s, s.wrapping_sub(2));
        cpu.RTS();
        assert_eq!(cpu.registers().pc, pc);
        assert_eq!(cpu.registers().s, s);
    }
}

#[test]
fn rts_adds_one_to_the_pulled_address() {
    let mut cpu = cpu_with(0, 0, 0, 0, 0, 0xFB);
    cpu.write(0x01FC, 0xFF);
    cpu.write(0x01FD, 0x12);
    cpu.RTS();
    assert_eq!(cpu.registers().pc, 0x1300);
    assert_eq!(cpu.registers().s, 0xFD);
}

#[test]
fn push_and_pop() {
    let mut cpu = CPU::new();
    cpu.push_to_stack(0xAB);
    assert_eq!(cpu.read(0x01FD), 0xAB);
    assert_eq!(cpu.registers().s, 0xFC);
    cpu.push_to_stack(0xCD);
    assert_eq!(cpu.read(0x01FC), 0xCD);
    assert_eq!(cpu.pop_from_stack(), 0xCD);
    assert_eq!(cpu.pop_from_stack(), 0xAB);
    assert_eq!(cpu.registers().s, 0xFD);
}

#[test]
fn the_stack_wraps_within_its_page() {
    let mut cpu = cpu_with(0, 0, 0, 0, 0, 0x00);
    assert_eq!(cpu.stack_boundary(), Some(StackBoundary::Overflow));
    cpu.push_to_stack(0x11);
    assert_eq!(cpu.read(0x0100), 0x11);
    assert_eq!(cpu.registers().s, 0xFF);
    assert_eq!(cpu.stack_boundary(), Some(StackBoundary::Underflow));
    assert_eq!(cpu.pop_from_stack(), 0x11);
    assert_eq!(cpu.registers().s, 0x00);
    cpu.set_registers(Registers { pc: 0, s: 0x80, p: 0, a: 0, x: 0, y: 0 });
    assert_eq!(cpu.stack_boundary(), None);
}

#[test]
fn pha_and_pla() {
    let mut cpu = cpu_with(0, 0x80, 0, 0, 0, 0xFD);
    cpu.PHA();
    assert_eq!(cpu.read(0x01FD), 0x80);
    assert_eq!(cpu.registers().s, 0xFC);
    assert_eq!(cpu.registers().p, 0);
    cpu.LDA(0x01);
    cpu.PLA();
    assert_eq!(cpu.registers().a, 0x80);
    assert_eq!(cpu.registers().p, NEGATIVE);
    assert_eq!(cpu.registers().s, 0xFD);
}

#[test]
fn php_sets_break_in_the_pushed_copy() {
    let mut cpu = cpu_with(0, 0, 0, 0, CARRY | ZERO, 0xFD);
    cpu.PHP();
    assert_eq!(cpu.read(0x01FD), CARRY | ZERO | BREAK | UNUSED);
    assert_eq!(cpu.registers().p, CARRY | ZERO);
}

#[test]
fn plp_discards_break() {
    let mut cpu = cpu_with(0, 0, 0, 0, 0, 0xFC);
    cpu.write(0x01FD, 0xFF);
    cpu.PLP();
    assert_eq!(cpu.registers().p, 0xEF);
    cpu.set_registers(Registers { pc: 0, s: 0xFC, p: 0xFF, a: 0, x: 0, y: 0 });
    cpu.write(0x01FD, 0x00);
    cpu.PLP();
    assert_eq!(cpu.registers().p, UNUSED);
}

#[test]
fn brk_pushes_and_jumps_through_the_vector() {
    let mut cpu = cpu_with(0x8001, 0, 0, 0, CARRY, 0xFD);
    cpu.write(0xFFFE, 0x34);
    cpu.write(0xFFFF, 0x12);
    cpu.BRK();
    assert_eq!(cpu.registers().pc, 0x1234);
    assert_eq!(cpu.registers().s, 0xFA);
    assert_eq!(cpu.registers().p, CARRY | INTERRUPT);
    assert_eq!(cpu.read(0x01FD), 0x80);
    assert_eq!(cpu.read(0x01FC), 0x02);
    assert_eq!(cpu.read(0x01FB), CARRY | BREAK | UNUSED);
}

#[test]
fn rti_pulls_status_and_program_counter() {
    let mut cpu = cpu_with(0x8001, 0, 0, 0, CARRY, 0xFD);
    cpu.write(0xFFFE, 0x34);
    cpu.write(0xFFFF, 0x12);
    cpu.BRK();
    cpu.RTI();
    assert_eq!(cpu.registers().pc, 0x8002);
    assert_eq!(cpu.registers().s, 0xFD);
    assert_eq!(cpu.registers().p, CARRY | UNUSED);
}

#[test]
fn nop_changes_nothing() {
    let mut cpu = cpu_with(0x1234, 1, 2, 3, 0x24, 0x80);
    cpu.write(0x0000, 0x99);
    cpu.NOP();
    assert_eq!(cpu.registers(), Registers { pc: 0x1234, s: 0x80, p: 0x24, a: 1, x: 2, y: 3 });
    assert_eq!(cpu.read(0x0000), 0x99);
}

#[test]
fn operand_value_and_store() {
    let mut cpu = cpu_with(0, 0x77, 0, 0, 0, 0xFD);
    cpu.write(0x0200, 0x88);
    assert_eq!(cpu.operand_value(Operand::Immediate(0x12)), 0x12);
    assert_eq!(cpu.operand_value(Operand::Accumulator), 0x77);
    assert_eq!(cpu.operand_value(Operand::Address(0x0200)), 0x88);
    assert_eq!(cpu.operand_value(Operand::Implied), 0);
    assert_eq!(cpu.operand_value(Operand::Relative(5)), 0);
    cpu.store_operand(Operand::Accumulator, 0x01);
    cpu.store_operand(Operand::Address(0x0201), 0x02);
    cpu.store_operand(Operand::Implied, 0x03);
    assert_eq!(cpu.registers().a, 0x01);
    assert_eq!(cpu.read(0x0201), 0x02);
    assert_eq!(Operand::Address(0x1234).address(), 0x1234);
    assert_eq!(Operand::Implied.address(), 0);
    assert_eq!(Operand::Relative(-3).offset(), -3);
    assert_eq!(Operand::Immediate(9).offset(), 0);
}

#[test]
fn handlers_work_through_mirrors() {
    let mut cpu = cpu_with(0, 0x5A, 0, 0, 0, 0xFD);
    cpu.STA(0x0805);
    assert_eq!(cpu.read(0x0005), 0x5A);
    cpu.INC(0x1805);
    assert_eq!(cpu.read(0x0005), 0x5B);
    assert_eq!(cpu.set_mem(MemMap::PpuRegisters, &[0x01]), Ok(()));
    cpu.ASL(Operand::Address(0x2008));
    assert_eq!(cpu.read(0x2000), 0x02);
}
