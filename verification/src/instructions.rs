//! The semantic handlers, one per mnemonic.
//!
//! A handler runs after the instruction's bytes were consumed, so the program
//! counter already stands on the next instruction. Each contract says that
//! the handler turns the machine into the one that the function of the same
//! name on [`Machine`] describes; whatever that function leaves alone, the
//! handler leaves alone.
use crate::cpu::{branch_target, make_word, split_word, CPU};
use crate::machine::{Operand, BREAK_VECTOR};
use crate::status::{BREAK, CARRY, DECIMAL, INTERRUPT, NEGATIVE, OVERFLOW, UNUSED, ZERO};
use crate::status::test_flag;
use vstd::prelude::*;

verus! {

/// Bit 7 of the exclusive-or test used by `ADC` is set exactly when both
/// operands have the same sign and the result has the other one.
proof fn lemma_sign_test(a: u8, v: u8, r: u8)
    ensures
        ((a ^ r) & (v ^ r) & 0x80 != 0) <==> ((a >= 0x80) == (v >= 0x80) && (r >= 0x80) != (a
            >= 0x80)),
{
    assert(((a ^ r) & (v ^ r) & 0x80 != 0) <==> ((a >= 0x80) == (v >= 0x80) && (r >= 0x80) != (a
        >= 0x80))) by (bit_vector);
}

#[allow(non_snake_case)]
impl CPU {

    /// Loads the accumulator with `operand` and recomputes Zero and Negative.
    pub fn LDA(&mut self, operand: u8)
        ensures
            final(self)@ == old(self)@.lda(operand),
    {
        self.a = operand;
        self.update_zero_negative(operand);
    }

    /// Loads X with `operand` and recomputes Zero and Negative.
    pub fn LDX(&mut self, operand: u8)
        ensures
            final(self)@ == old(self)@.ldx(operand),
    {
        self.x = operand;
        self.update_zero_negative(operand);
    }

    /// Loads Y with `operand` and recomputes Zero and Negative.
    pub fn LDY(&mut self, operand: u8)
        ensures
            final(self)@ == old(self)@.ldy(operand),
    {
        self.y = operand;
        self.update_zero_negative(operand);
    }

    /// Stores the accumulator at the address `operand`. No flag changes.
    pub fn STA(&mut self, operand: u16)
        ensures
            final(self)@ == old(self)@.sta(operand),
    {
        self.mem.write(operand, self.a);
    }

    /// Stores X at the address `operand`. No flag changes.
    pub fn STX(&mut self, operand: u16)
        ensures
            final(self)@ == old(self)@.stx(operand),
    {
        self.mem.write(operand, self.x);
    }

    /// Stores Y at the address `operand`. No flag changes.
    pub fn STY(&mut self, operand: u16)
        ensures
            final(self)@ == old(self)@.sty(operand),
    {
        self.mem.write(operand, self.y);
    }

    /// Copies the accumulator to X and recomputes Zero and Negative.
    pub fn TAX(&mut self)
        ensures
            final(self)@ == old(self)@.tax(),
    {
        self.x = self.a;
        self.update_zero_negative(self.x);
    }

    /// Copies the accumulator to Y and recomputes Zero and Negative.
    pub fn TAY(&mut self)
        ensures
            final(self)@ == old(self)@.tay(),
    {
        self.y = self.a;
        self.update_zero_negative(self.y);
    }

    /// Copies X to the accumulator and recomputes Zero and Negative.
    pub fn TXA(&mut self)
        ensures
            final(self)@ == old(self)@.txa(),
    {
        self.a = self.x;
        self.update_zero_negative(self.a);
    }

    /// Copies Y to the accumulator and recomputes Zero and Negative.
    pub fn TYA(&mut self)
        ensures
            final(self)@ == old(self)@.tya(),
    {
        self.a = self.y;
        self.update_zero_negative(self.a);
    }

    /// Copies the stack pointer to X and recomputes Zero and Negative.
    pub fn TSX(&mut self)
        ensures
            final(self)@ == old(self)@.tsx(),
    {
        self.x = self.s;
        self.update_zero_negative(self.x);
    }

    /// Copies X to the stack pointer. No flag changes.
    pub fn TXS(&mut self)
        ensures
            final(self)@ == old(self)@.txs(),
    {
        self.s = self.x;
    }

    /// Increments X, modulo 256, and recomputes Zero and Negative.
    pub fn INX(&mut self)
        ensures
            final(self)@ == old(self)@.inx(),
    {
        self.x = self.x.wrapping_add(1);
        self.update_zero_negative(self.x);
    }

    /// Increments Y, modulo 256, and recomputes Zero and Negative.
    pub fn INY(&mut self)
        ensures
            final(self)@ == old(self)@.iny(),
    {
        self.y = self.y.wrapping_add(1);
        self.update_zero_negative(self.y);
    }

    /// Decrements X, modulo 256, and recomputes Zero and Negative.
    pub fn DEX(&mut self)
        ensures
            final(self)@ == old(self)@.dex(),
    {
        self.x = self.x.wrapping_sub(1);
        self.update_zero_negative(self.x);
    }

    /// Decrements Y, modulo 256, and recomputes Zero and Negative.
    pub fn DEY(&mut self)
        ensures
            final(self)@ == old(self)@.dey(),
    {
        self.y = self.y.wrapping_sub(1);
        self.update_zero_negative(self.y);
    }

    /// Increments the byte at the address `operand`, modulo 256, and recomputes Zero and Negative.
    pub fn INC(&mut self, operand: u16)
        ensures
            final(self)@ == old(self)@.inc(operand),
    {
        let result = self.mem.read(operand).wrapping_add(1);
        self.mem.write(operand, result);
        self.update_zero_negative(result);
    }

    /// Decrements the byte at the address `operand`, modulo 256, and recomputes Zero and Negative.
    pub fn DEC(&mut self, operand: u16)
        ensures
            final(self)@ == old(self)@.dec(operand),
    {
        let result = self.mem.read(operand).wrapping_sub(1);
        self.mem.write(operand, result);
        self.update_zero_negative(result);
    }

    /// ANDs `operand` into the accumulator and recomputes Zero and Negative.
    pub fn AND(&mut self, operand: u8)
        ensures
            final(self)@ == old(self)@.and(operand),
    {
        self.a = self.a & operand;
        self.update_zero_negative(self.a);
    }

    /// ORs `operand` into the accumulator and recomputes Zero and Negative.
    pub fn ORA(&mut self, operand: u8)
        ensures
            final(self)@ == old(self)@.ora(operand),
    {
        self.a = self.a | operand;
        self.update_zero_negative(self.a);
    }

    /// Exclusive-ORs `operand` into the accumulator and recomputes Zero and Negative.
    pub fn EOR(&mut self, operand: u8)
        ensures
            final(self)@ == old(self)@.eor(operand),
    {
        self.a = self.a ^ operand;
        self.update_zero_negative(self.a);
    }

    /// Tests `operand` against the accumulator: Zero says that they share no bit, Overflow and Negative copy bits 6 and 7 of `operand`.
    pub fn BIT(&mut self, operand: u8)
        ensures
            final(self)@ == old(self)@.bit(operand),
    {
        self.set_flag(ZERO, self.a & operand == 0);
        self.set_flag(OVERFLOW, test_flag(operand, OVERFLOW));
        self.set_flag(NEGATIVE, test_flag(operand, NEGATIVE));
    }

    /// Adds `operand` and Carry to the accumulator; sets Carry, Overflow, Zero and Negative.
    pub fn ADC(&mut self, operand: u8)
        ensures
            final(self)@ == old(self)@.adc(operand),
    {
        let carry: u16 = if self.is_carry_set() { 1 } else { 0 };
        let sum: u16 = self.a as u16 + operand as u16 + carry;
        let result: u8 = (sum % 0x100) as u8;
        let overflow = (self.a ^ result) & (operand ^ result) & 0x80 != 0;
        proof {
            lemma_sign_test(self.a, operand, result);
        }
        self.set_flag(CARRY, sum > 0xFF);
        self.set_flag(OVERFLOW, overflow);
        self.a = result;
        self.update_zero_negative(result);
    }

    /// Subtracts `operand` and the borrow from the accumulator; sets Carry, Overflow, Zero and Negative.
    pub fn SBC(&mut self, operand: u8)
        ensures
            final(self)@ == old(self)@.sbc(operand),
    {
        self.ADC(0xFF - operand);
    }

    /// Compares the accumulator with `operand`; sets Carry, Zero and Negative and changes no register.
    pub fn CMP(&mut self, operand: u8)
        ensures
            final(self)@ == old(self)@.compare_a(operand),
    {
        let register = self.a;
        self.set_flag(CARRY, register >= operand);
        self.update_zero_negative(register.wrapping_sub(operand));
    }

    /// Compares X with `operand`; sets Carry, Zero and Negative and changes no register.
    pub fn CPX(&mut self, operand: u8)
        ensures
            final(self)@ == old(self)@.compare_x(operand),
    {
        let register = self.x;
        self.set_flag(CARRY, register >= operand);
        self.update_zero_negative(register.wrapping_sub(operand));
    }

    /// Compares Y with `operand`; sets Carry, Zero and Negative and changes no register.
    pub fn CPY(&mut self, operand: u8)
        ensures
            final(self)@ == old(self)@.compare_y(operand),
    {
        let register = self.y;
        self.set_flag(CARRY, register >= operand);
        self.update_zero_negative(register.wrapping_sub(operand));
    }

    /// Finishes a shift or rotate: stores `result` where `operand` points and
    /// sets Carry, Zero and Negative.
    fn finish_shift(&mut self, operand: Operand, result: u8, carry_out: bool)
        ensures
            final(self)@ == old(self)@.shifted(operand, result, carry_out),
    {
        self.store_operand(operand, result);
        self.set_flag(CARRY, carry_out);
        self.update_zero_negative(result);
    }

    /// Shifts the accumulator or the byte at the address one bit left; bit 7 goes to Carry.
    pub fn ASL(&mut self, operand: Operand)
        ensures
            final(self)@ == old(self)@.asl(operand),
    {
        let v = self.operand_value(operand);
        self.finish_shift(operand, v << 1, test_flag(v, 0x80));
    }

    /// Shifts the accumulator or the byte at the address one bit right; bit 0 goes to Carry.
    pub fn LSR(&mut self, operand: Operand)
        ensures
            final(self)@ == old(self)@.lsr(operand),
    {
        let v = self.operand_value(operand);
        self.finish_shift(operand, v >> 1, test_flag(v, 0x01));
    }

    /// Rotates the accumulator or the byte at the address one bit left through Carry.
    pub fn ROL(&mut self, operand: Operand)
        ensures
            final(self)@ == old(self)@.rol(operand),
    {
        let v = self.operand_value(operand);
        self.finish_shift(operand, (v << 1) | (self.p & CARRY), test_flag(v, 0x80));
    }

    /// Rotates the accumulator or the byte at the address one bit right through Carry.
    pub fn ROR(&mut self, operand: Operand)
        ensures
            final(self)@ == old(self)@.ror(operand),
    {
        let v = self.operand_value(operand);
        self.finish_shift(operand, (v >> 1) | ((self.p & CARRY) << 7), test_flag(v, 0x01));
    }

    /// Takes a branch: adds the signed `operand` to the program counter,
    /// modulo 2^16, when `taken`; does nothing otherwise.
    fn branch_if(&mut self, taken: bool, operand: i8)
        ensures
            final(self)@ == old(self)@.branch(taken, operand),
    {
        if taken {
            self.pc = branch_target(self.pc, operand);
        }
    }

    /// Branches by the signed offset `operand` if and only if Negative is clear.
    pub fn BPL(&mut self, operand: i8)
        ensures
            final(self)@ == old(self)@.bpl(operand),
    {
        let taken = !self.is_flag_set(NEGATIVE);
        self.branch_if(taken, operand);
    }

    /// Branches by the signed offset `operand` if and only if Negative is set.
    pub fn BMI(&mut self, operand: i8)
        ensures
            final(self)@ == old(self)@.bmi(operand),
    {
        let taken = self.is_flag_set(NEGATIVE);
        self.branch_if(taken, operand);
    }

    /// Branches by the signed offset `operand` if and only if Overflow is clear.
    pub fn BVC(&mut self, operand: i8)
        ensures
            final(self)@ == old(self)@.bvc(operand),
    {
        let taken = !self.is_flag_set(OVERFLOW);
        self.branch_if(taken, operand);
    }

    /// Branches by the signed offset `operand` if and only if Overflow is set.
    pub fn BVS(&mut self, operand: i8)
        ensures
            final(self)@ == old(self)@.bvs(operand),
    {
        let taken = self.is_flag_set(OVERFLOW);
        self.branch_if(taken, operand);
    }

    /// Branches by the signed offset `operand` if and only if Carry is clear.
    pub fn BCC(&mut self, operand: i8)
        ensures
            final(self)@ == old(self)@.bcc(operand),
    {
        let taken = !self.is_flag_set(CARRY);
        self.branch_if(taken, operand);
    }

    /// Branches by the signed offset `operand` if and only if Carry is set.
    pub fn BCS(&mut self, operand: i8)
        ensures
            final(self)@ == old(self)@.bcs(operand),
    {
        let taken = self.is_flag_set(CARRY);
        self.branch_if(taken, operand);
    }

    /// Branches by the signed offset `operand` if and only if Zero is clear.
    pub fn BNE(&mut self, operand: i8)
        ensures
            final(self)@ == old(self)@.bne(operand),
    {
        let taken = !self.is_flag_set(ZERO);
        self.branch_if(taken, operand);
    }

    /// Branches by the signed offset `operand` if and only if Zero is set.
    pub fn BEQ(&mut self, operand: i8)
        ensures
            final(self)@ == old(self)@.beq(operand),
    {
        let taken = self.is_flag_set(ZERO);
        self.branch_if(taken, operand);
    }

    /// Clears Carry; nothing else changes.
    pub fn CLC(&mut self)
        ensures
            final(self)@ == old(self)@.assign(CARRY, false),
    {
        self.set_flag(CARRY, false);
    }

    /// Sets Carry; nothing else changes.
    pub fn SEC(&mut self)
        ensures
            final(self)@ == old(self)@.assign(CARRY, true),
    {
        self.set_flag(CARRY, true);
    }

    /// Clears Interrupt-disable; nothing else changes.
    pub fn CLI(&mut self)
        ensures
            final(self)@ == old(self)@.assign(INTERRUPT, false),
    {
        self.set_flag(INTERRUPT, false);
    }

    /// Sets Interrupt-disable; nothing else changes.
    pub fn SEI(&mut self)
        ensures
            final(self)@ == old(self)@.assign(INTERRUPT, true),
    {
        self.set_flag(INTERRUPT, true);
    }

    /// Clears Overflow; nothing else changes.
    pub fn CLV(&mut self)
        ensures
            final(self)@ == old(self)@.assign(OVERFLOW, false),
    {
        self.set_flag(OVERFLOW, false);
    }

    /// Clears Decimal; nothing else changes.
    pub fn CLD(&mut self)
        ensures
            final(self)@ == old(self)@.assign(DECIMAL, false),
    {
        self.set_flag(DECIMAL, false);
    }

    /// Sets Decimal; nothing else changes.
    pub fn SED(&mut self)
        ensures
            final(self)@ == old(self)@.assign(DECIMAL, true),
    {
        self.set_flag(DECIMAL, true);
    }

    /// Jumps to the address `operand`.
    pub fn JMP(&mut self, operand: u16)
        ensures
            final(self)@ == old(self)@.jmp(operand),
    {
        self.pc = operand;
    }

    /// Calls the subroutine at `operand`: pushes the return address minus one, high byte first, and jumps.
    pub fn JSR(&mut self, operand: u16)
        ensures
            final(self)@ == old(self)@.jsr(operand),
    {
        let (low, high) = split_word(self.pc.wrapping_sub(1));
        self.push_to_stack(high);
        self.push_to_stack(low);
        self.pc = operand;
    }

    /// Returns from a subroutine: pulls the low and the high byte of an address and continues one byte after it.
    pub fn RTS(&mut self)
        ensures
            final(self)@ == old(self)@.rts(),
    {
        let low = self.pop_from_stack();
        let high = self.pop_from_stack();
        self.pc = make_word(low, high).wrapping_add(1);
    }

    /// Returns from an interrupt: pulls the status register, then the program counter.
    pub fn RTI(&mut self)
        ensures
            final(self)@ == old(self)@.rti(),
    {
        let status = self.pop_from_stack();
        let low = self.pop_from_stack();
        let high = self.pop_from_stack();
        self.p = (status & !BREAK) | UNUSED;
        self.pc = make_word(low, high);
    }

    /// Breaks: pushes the address after the padding byte and the status with Break set, sets Interrupt-disable and jumps through the vector at `0xFFFE`.
    pub fn BRK(&mut self)
        ensures
            final(self)@ == old(self)@.brk(),
    {
        let status = self.p;
        let (low, high) = split_word(self.pc.wrapping_add(1));
        self.push_to_stack(high);
        self.push_to_stack(low);
        self.push_to_stack(status | BREAK | UNUSED);
        self.set_flag(INTERRUPT, true);
        self.pc = self.read_word(BREAK_VECTOR);
    }

    /// Pushes the accumulator.
    pub fn PHA(&mut self)
        ensures
            final(self)@ == old(self)@.pha(),
    {
        self.push_to_stack(self.a);
    }

    /// Pushes the status register with Break and the unused bit set.
    pub fn PHP(&mut self)
        ensures
            final(self)@ == old(self)@.php(),
    {
        self.push_to_stack(self.p | BREAK | UNUSED);
    }

    /// Pulls the accumulator and recomputes Zero and Negative.
    pub fn PLA(&mut self)
        ensures
            final(self)@ == old(self)@.pla(),
    {
        self.a = self.pop_from_stack();
        self.update_zero_negative(self.a);
    }

    /// Pulls the status register; Break is discarded and the unused bit set.
    pub fn PLP(&mut self)
        ensures
            final(self)@ == old(self)@.plp(),
    {
        let status = self.pop_from_stack();
        self.p = (status & !BREAK) | UNUSED;
    }

    /// Does nothing.
    pub fn NOP(&mut self)
        ensures
            final(self)@ == old(self)@,
    {
    }
}

} // verus!
