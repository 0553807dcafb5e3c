//! What each instruction does to the machine, as functions on [`Machine`].
//!
//! Each function takes the machine as the handler finds it, after the
//! instruction's bytes were consumed, and returns the machine as the handler
//! leaves it. Nothing but what is written out here changes.
use crate::machine::{
    address_of, high_byte, low_byte, offset_of, signed, word, wrap16, wrap8, Machine, Operand,
    RunState, BREAK_VECTOR,
};
use crate::status::{
    flag_set, with_flag, with_zero_negative, BREAK, CARRY, DECIMAL, INTERRUPT, NEGATIVE, OVERFLOW,
    UNUSED, ZERO,
};
use crate::table::{decode_spec, Mnemonic};
use vstd::prelude::*;

verus! {

/// The status register after `register` was compared with `value`: Carry says
/// that `register >= value`, Zero and Negative describe the difference.
pub open spec fn compared(p: u8, register: u8, value: u8) -> u8 {
    with_zero_negative(with_flag(p, CARRY, register >= value), wrap8(register - value))
}

/// A status byte as it is pushed on the stack: Break and the unused bit set.
pub open spec fn pushed_status(p: u8) -> u8 {
    p | BREAK | UNUSED
}

/// A status byte as it is pulled from the stack: Break clear, the unused bit set.
pub open spec fn pulled_status(byte: u8) -> u8 {
    (byte & !BREAK) | UNUSED
}

impl Machine {
    /// `LDA`: the accumulator takes `value`; Zero and Negative follow it.
    pub open spec fn lda(self, value: u8) -> Machine {
        Machine { a: value, p: with_zero_negative(self.p, value), ..self }
    }

    /// `LDX`: X takes `value`; Zero and Negative follow it.
    pub open spec fn ldx(self, value: u8) -> Machine {
        Machine { x: value, p: with_zero_negative(self.p, value), ..self }
    }

    /// `LDY`: Y takes `value`; Zero and Negative follow it.
    pub open spec fn ldy(self, value: u8) -> Machine {
        Machine { y: value, p: with_zero_negative(self.p, value), ..self }
    }

    /// `STA`: the accumulator is written to `addr`; no flag changes.
    pub open spec fn sta(self, addr: u16) -> Machine {
        self.write(addr, self.a)
    }

    /// `STX`: X is written to `addr`; no flag changes.
    pub open spec fn stx(self, addr: u16) -> Machine {
        self.write(addr, self.x)
    }

    /// `STY`: Y is written to `addr`; no flag changes.
    pub open spec fn sty(self, addr: u16) -> Machine {
        self.write(addr, self.y)
    }

    /// `TAX`: X takes the accumulator; Zero and Negative follow it.
    pub open spec fn tax(self) -> Machine {
        self.ldx(self.a)
    }

    /// `TAY`: Y takes the accumulator; Zero and Negative follow it.
    pub open spec fn tay(self) -> Machine {
        self.ldy(self.a)
    }

    /// `TXA`: the accumulator takes X; Zero and Negative follow it.
    pub open spec fn txa(self) -> Machine {
        self.lda(self.x)
    }

    /// `TYA`: the accumulator takes Y; Zero and Negative follow it.
    pub open spec fn tya(self) -> Machine {
        self.lda(self.y)
    }

    /// `TSX`: X takes the stack pointer; Zero and Negative follow it.
    pub open spec fn tsx(self) -> Machine {
        self.ldx(self.s)
    }

    /// `TXS`: the stack pointer takes X; no flag changes.
    pub open spec fn txs(self) -> Machine {
        Machine { s: self.x, ..self }
    }

    /// `INX`: X plus one, modulo 256.
    pub open spec fn inx(self) -> Machine {
        self.ldx(wrap8(self.x + 1))
    }

    /// `INY`: Y plus one, modulo 256.
    pub open spec fn iny(self) -> Machine {
        self.ldy(wrap8(self.y + 1))
    }

    /// `DEX`: X minus one, modulo 256.
    pub open spec fn dex(self) -> Machine {
        self.ldx(wrap8(self.x - 1))
    }

    /// `DEY`: Y minus one, modulo 256.
    pub open spec fn dey(self) -> Machine {
        self.ldy(wrap8(self.y - 1))
    }

    /// `INC`: the byte at `addr` plus one, modulo 256; Zero and Negative follow it.
    pub open spec fn inc(self, addr: u16) -> Machine {
        let result = wrap8(self.read(addr) + 1);
        Machine { p: with_zero_negative(self.p, result), ..self.write(addr, result) }
    }

    /// `DEC`: the byte at `addr` minus one, modulo 256; Zero and Negative follow it.
    pub open spec fn dec(self, addr: u16) -> Machine {
        let result = wrap8(self.read(addr) - 1);
        Machine { p: with_zero_negative(self.p, result), ..self.write(addr, result) }
    }

    /// `AND`: the accumulator and `value`, bit by bit.
    pub open spec fn and(self, value: u8) -> Machine {
        self.lda(self.a & value)
    }

    /// `ORA`: the accumulator or `value`, bit by bit.
    pub open spec fn ora(self, value: u8) -> Machine {
        self.lda(self.a | value)
    }

    /// `EOR`: the accumulator exclusive-or `value`, bit by bit.
    pub open spec fn eor(self, value: u8) -> Machine {
        self.lda(self.a ^ value)
    }

    /// `BIT`: Zero says that the accumulator and `value` share no bit;
    /// Overflow and Negative are bits 6 and 7 of `value`. No register changes.
    pub open spec fn bit(self, value: u8) -> Machine {
        Machine {
            p: with_flag(
                with_flag(
                    with_flag(self.p, ZERO, self.a & value == 0),
                    OVERFLOW,
                    flag_set(value, OVERFLOW),
                ),
                NEGATIVE,
                flag_set(value, NEGATIVE),
            ),
            ..self
        }
    }

    /// `ADC`: the accumulator plus `value` plus Carry. Carry is the carry out
    /// of bit 7; Overflow says that the sum of the operands, read as signed
    /// bytes, does not fit in a signed byte. The Decimal flag has no effect.
    pub open spec fn adc(self, value: u8) -> Machine {
        let sum = self.a + value + self.carry();
        let signed_sum = signed(self.a) + signed(value) + self.carry();
        let carried = with_flag(self.p, CARRY, sum > 0xFF);
        let overflowed = with_flag(carried, OVERFLOW, signed_sum < -128 || signed_sum > 127);
        Machine { a: wrap8(sum), p: with_zero_negative(overflowed, wrap8(sum)), ..self }
    }

    /// `SBC`: the accumulator minus `value` minus the borrow, which is the
    /// complement of Carry. Carry is set when no borrow was needed; Overflow
    /// says that the signed difference does not fit in a signed byte. The
    /// Decimal flag has no effect.
    pub open spec fn sbc(self, value: u8) -> Machine {
        let difference = self.a - value - (1 - self.carry());
        let signed_difference = signed(self.a) - signed(value) - (1 - self.carry());
        let carried = with_flag(self.p, CARRY, difference >= 0);
        let overflowed = with_flag(
            carried,
            OVERFLOW,
            signed_difference < -128 || signed_difference > 127,
        );
        Machine { a: wrap8(difference), p: with_zero_negative(overflowed, wrap8(difference)), ..self }
    }

    /// `CMP`: flags of the accumulator compared with `value`.
    pub open spec fn compare_a(self, value: u8) -> Machine {
        Machine { p: compared(self.p, self.a, value), ..self }
    }

    /// `CPX`: flags of X compared with `value`.
    pub open spec fn compare_x(self, value: u8) -> Machine {
        Machine { p: compared(self.p, self.x, value), ..self }
    }

    /// `CPY`: flags of Y compared with `value`.
    pub open spec fn compare_y(self, value: u8) -> Machine {
        Machine { p: compared(self.p, self.y, value), ..self }
    }

    /// The machine after a shift or rotate stored `result` where `operand`
    /// points, with `carry_out` as the new Carry.
    pub open spec fn shifted(self, operand: Operand, result: u8, carry_out: bool) -> Machine {
        Machine {
            p: with_zero_negative(with_flag(self.p, CARRY, carry_out), result),
            ..self.store(operand, result)
        }
    }

    /// `ASL`: one bit to the left; bit 7 goes to Carry, bit 0 becomes zero.
    pub open spec fn asl(self, operand: Operand) -> Machine {
        let v = self.value(operand);
        self.shifted(operand, v << 1, flag_set(v, 0x80))
    }

    /// `LSR`: one bit to the right; bit 0 goes to Carry, bit 7 becomes zero.
    pub open spec fn lsr(self, operand: Operand) -> Machine {
        let v = self.value(operand);
        self.shifted(operand, v >> 1, flag_set(v, 0x01))
    }

    /// `ROL`: one bit to the left; bit 7 goes to Carry, the old Carry to bit 0.
    pub open spec fn rol(self, operand: Operand) -> Machine {
        let v = self.value(operand);
        self.shifted(operand, (v << 1) | (self.p & CARRY), flag_set(v, 0x80))
    }

    /// `ROR`: one bit to the right; bit 0 goes to Carry, the old Carry to bit 7.
    pub open spec fn ror(self, operand: Operand) -> Machine {
        let v = self.value(operand);
        self.shifted(operand, (v >> 1) | ((self.p & CARRY) << 7), flag_set(v, 0x01))
    }

    /// A branch: when `taken`, the signed `offset` is added to the program
    /// counter, which already stands on the next instruction, modulo 2^16.
    pub open spec fn branch(self, taken: bool, offset: i8) -> Machine {
        if taken {
            Machine { pc: wrap16(self.pc + offset), ..self }
        } else {
            self
        }
    }

    /// `BCC`: branch when Carry is clear.
    pub open spec fn bcc(self, offset: i8) -> Machine {
        self.branch(!self.flag(CARRY), offset)
    }

    /// `BCS`: branch when Carry is set.
    pub open spec fn bcs(self, offset: i8) -> Machine {
        self.branch(self.flag(CARRY), offset)
    }

    /// `BNE`: branch when Zero is clear.
    pub open spec fn bne(self, offset: i8) -> Machine {
        self.branch(!self.flag(ZERO), offset)
    }

    /// `BEQ`: branch when Zero is set.
    pub open spec fn beq(self, offset: i8) -> Machine {
        self.branch(self.flag(ZERO), offset)
    }

    /// `BPL`: branch when Negative is clear.
    pub open spec fn bpl(self, offset: i8) -> Machine {
        self.branch(!self.flag(NEGATIVE), offset)
    }

    /// `BMI`: branch when Negative is set.
    pub open spec fn bmi(self, offset: i8) -> Machine {
        self.branch(self.flag(NEGATIVE), offset)
    }

    /// `BVC`: branch when Overflow is clear.
    pub open spec fn bvc(self, offset: i8) -> Machine {
        self.branch(!self.flag(OVERFLOW), offset)
    }

    /// `BVS`: branch when Overflow is set.
    pub open spec fn bvs(self, offset: i8) -> Machine {
        self.branch(self.flag(OVERFLOW), offset)
    }

    /// `JMP`: the program counter takes `target`.
    pub open spec fn jmp(self, target: u16) -> Machine {
        Machine { pc: target, ..self }
    }

    /// `JSR`: the address of the last byte of the instruction, which is the
    /// return address minus one, is pushed high byte first; the program
    /// counter takes `target`.
    pub open spec fn jsr(self, target: u16) -> Machine {
        let last = wrap16(self.pc - 1);
        Machine { pc: target, ..self.push(high_byte(last)).push(low_byte(last)) }
    }

    /// `RTS`: the low byte and then the high byte of an address are pulled;
    /// the program counter takes that address plus one.
    pub open spec fn rts(self) -> Machine {
        let low = self.pop();
        let high = low.pop();
        Machine { pc: wrap16(word(low.top(), high.top()) + 1), ..high }
    }

    /// `RTI`: the status register is pulled, then the program counter, low
    /// byte first.
    pub open spec fn rti(self) -> Machine {
        let status = self.pop();
        let low = status.pop();
        let high = low.pop();
        Machine { p: pulled_status(status.top()), pc: word(low.top(), high.top()), ..high }
    }

    /// `BRK`: the address after the padding byte that follows the opcode is
    /// pushed, high byte first, then the status with Break set; then
    /// Interrupt-disable is set and the program counter is read from the
    /// vector at `0xFFFE`.
    pub open spec fn brk(self) -> Machine {
        let resume = wrap16(self.pc + 1);
        let stacked = self.push(high_byte(resume)).push(low_byte(resume)).push(
            pushed_status(self.p),
        );
        Machine {
            p: with_flag(self.p, INTERRUPT, true),
            pc: stacked.read_word(BREAK_VECTOR),
            ..stacked
        }
    }

    /// `PHA`: the accumulator is pushed.
    pub open spec fn pha(self) -> Machine {
        self.push(self.a)
    }

    /// `PHP`: the status register is pushed, with Break and the unused bit set.
    pub open spec fn php(self) -> Machine {
        self.push(pushed_status(self.p))
    }

    /// `PLA`: the accumulator is pulled; Zero and Negative follow it.
    pub open spec fn pla(self) -> Machine {
        let pulled = self.pop();
        pulled.lda(pulled.top())
    }

    /// `PLP`: the status register is pulled; Break is discarded.
    pub open spec fn plp(self) -> Machine {
        let pulled = self.pop();
        Machine { p: pulled_status(pulled.top()), ..pulled }
    }

    /// The machine with the flag `mask` set or cleared and nothing else touched.
    pub open spec fn assign(self, mask: u8, on: bool) -> Machine {
        Machine { p: with_flag(self.p, mask, on), ..self }
    }

    /// What the handler of `mnemonic` does with `operand`.
    #[verifier::opaque]
    pub open spec fn execute(self, mnemonic: Mnemonic, operand: Operand) -> Machine {
        match mnemonic {
            Mnemonic::Adc => self.adc(self.value(operand)),
            Mnemonic::And => self.and(self.value(operand)),
            Mnemonic::Asl => self.asl(operand),
            Mnemonic::Bcc => self.bcc(offset_of(operand)),
            Mnemonic::Bcs => self.bcs(offset_of(operand)),
            Mnemonic::Beq => self.beq(offset_of(operand)),
            Mnemonic::Bit => self.bit(self.value(operand)),
            Mnemonic::Bmi => self.bmi(offset_of(operand)),
            Mnemonic::Bne => self.bne(offset_of(operand)),
            Mnemonic::Bpl => self.bpl(offset_of(operand)),
            Mnemonic::Brk => self.brk(),
            Mnemonic::Bvc => self.bvc(offset_of(operand)),
            Mnemonic::Bvs => self.bvs(offset_of(operand)),
            Mnemonic::Clc => self.assign(CARRY, false),
            Mnemonic::Cld => self.assign(DECIMAL, false),
            Mnemonic::Cli => self.assign(INTERRUPT, false),
            Mnemonic::Clv => self.assign(OVERFLOW, false),
            Mnemonic::Cmp => self.compare_a(self.value(operand)),
            Mnemonic::Cpx => self.compare_x(self.value(operand)),
            Mnemonic::Cpy => self.compare_y(self.value(operand)),
            Mnemonic::Dec => self.dec(address_of(operand)),
            Mnemonic::Dex => self.dex(),
            Mnemonic::Dey => self.dey(),
            Mnemonic::Eor => self.eor(self.value(operand)),
            Mnemonic::Inc => self.inc(address_of(operand)),
            Mnemonic::Inx => self.inx(),
            Mnemonic::Iny => self.iny(),
            Mnemonic::Jmp => self.jmp(address_of(operand)),
            Mnemonic::Jsr => self.jsr(address_of(operand)),
            Mnemonic::Lda => self.lda(self.value(operand)),
            Mnemonic::Ldx => self.ldx(self.value(operand)),
            Mnemonic::Ldy => self.ldy(self.value(operand)),
            Mnemonic::Lsr => self.lsr(operand),
            Mnemonic::Nop => self,
            Mnemonic::Ora => self.ora(self.value(operand)),
            Mnemonic::Pha => self.pha(),
            Mnemonic::Php => self.php(),
            Mnemonic::Pla => self.pla(),
            Mnemonic::Plp => self.plp(),
            Mnemonic::Rol => self.rol(operand),
            Mnemonic::Ror => self.ror(operand),
            Mnemonic::Rti => self.rti(),
            Mnemonic::Rts => self.rts(),
            Mnemonic::Sbc => self.sbc(self.value(operand)),
            Mnemonic::Sec => self.assign(CARRY, true),
            Mnemonic::Sed => self.assign(DECIMAL, true),
            Mnemonic::Sei => self.assign(INTERRUPT, true),
            Mnemonic::Sta => self.sta(address_of(operand)),
            Mnemonic::Stx => self.stx(address_of(operand)),
            Mnemonic::Sty => self.sty(address_of(operand)),
            Mnemonic::Tax => self.tax(),
            Mnemonic::Tay => self.tay(),
            Mnemonic::Tsx => self.tsx(),
            Mnemonic::Txa => self.txa(),
            Mnemonic::Txs => self.txs(),
            Mnemonic::Tya => self.tya(),
        }
    }

    /// The machine with the dispatch loop stopped.
    pub open spec fn halt(self) -> Machine {
        Machine { state: RunState::Halted, ..self }
    }

    /// Whether the machine runs.
    pub open spec fn running(self) -> bool {
        self.state == RunState::Running
    }

    /// The opcode that the next fetch reads.
    pub open spec fn opcode(self) -> u8 {
        self.read(self.pc)
    }

    /// Whether the next step executes an instruction: the machine runs and
    /// the opcode under the program counter has a table entry.
    pub open spec fn steppable(self) -> bool {
        self.running() && decode_spec(self.opcode()) is Some
    }

    /// What the dispatch loop does once `opcode` was fetched and the program
    /// counter stands behind it. Without a table entry the machine halts
    /// there. Otherwise the operand is resolved, the program counter moves
    /// past the operand bytes, the handler runs and the base cycles are added.
    pub open spec fn dispatch(self, opcode: u8) -> Machine {
        match decode_spec(opcode) {
            None => self.halt(),
            Some(entry) => {
                let operand = self.operand(entry.mode);
                let done = self.advance(entry.operands as int).execute(entry.mnemonic, operand);
                Machine { cycles: done.cycles.wrapping_add(entry.cycles as u64), ..done }
            },
        }
    }

    /// One step of the dispatch loop. A halted machine stays as it is; a
    /// running one fetches the opcode under the program counter, moves past
    /// it and dispatches.
    pub open spec fn step(self) -> Machine {
        if self.running() {
            self.advance(1).dispatch(self.opcode())
        } else {
            self
        }
    }

    /// The machine after `n` steps.
    pub open spec fn steps(self, n: nat) -> Machine
        decreases n,
    {
        if n == 0 {
            self
        } else {
            self.steps((n - 1) as nat).step()
        }
    }
}

} // verus!
