//! The disassembler: mnemonic and operand of an instruction as text.
//!
//! | Mode               | Text                              |
//! |--------------------|-----------------------------------|
//! | implied            | `NOP`                             |
//! | accumulator        | `LSR A`                           |
//! | immediate          | `LDX #$00`                        |
//! | zero page          | `STX $10 = 00`                    |
//! | zero page,X        | `LDA $10,X @ 15 = 00`             |
//! | absolute           | `LDA $0400 = 00`, `JMP $C5F5`     |
//! | absolute,X         | `LDA $0400,X @ 0405 = 00`         |
//! | indirect           | `JMP ($0200) = DB7E`              |
//! | indexed indirect   | `LDA ($80,X) @ 85 = 0200 = 5A`    |
//! | indirect indexed   | `LDA ($89),Y = 0300 @ 0305 = 89`  |
//! | relative           | `BCS $C735`                       |
//!
//! After `@` stands the effective address, after the last `=` the byte that a
//! read of that address gives before the instruction runs. A jump shows its
//! target only.
use crate::cpu::{branch_target, index_zero_page, split_word, to_signed, CPU};
use crate::machine::{address_of, low_byte, offset_of, wrap16, wrap8, Machine};
use crate::table::{AddrMode, Mnemonic};
use crate::trace::{hex2, hex4, push_hex2, push_hex4};
use vstd::prelude::*;
use vstd::string::*;

verus! {

/// The three letters of a mnemonic.
pub open spec fn mnemonic_name(mnemonic: Mnemonic) -> Seq<char> {
    match mnemonic {
        Mnemonic::Adc => "ADC"@,
        Mnemonic::And => "AND"@,
        Mnemonic::Asl => "ASL"@,
        Mnemonic::Bcc => "BCC"@,
        Mnemonic::Bcs => "BCS"@,
        Mnemonic::Beq => "BEQ"@,
        Mnemonic::Bit => "BIT"@,
        Mnemonic::Bmi => "BMI"@,
        Mnemonic::Bne => "BNE"@,
        Mnemonic::Bpl => "BPL"@,
        Mnemonic::Brk => "BRK"@,
        Mnemonic::Bvc => "BVC"@,
        Mnemonic::Bvs => "BVS"@,
        Mnemonic::Clc => "CLC"@,
        Mnemonic::Cld => "CLD"@,
        Mnemonic::Cli => "CLI"@,
        Mnemonic::Clv => "CLV"@,
        Mnemonic::Cmp => "CMP"@,
        Mnemonic::Cpx => "CPX"@,
        Mnemonic::Cpy => "CPY"@,
        Mnemonic::Dec => "DEC"@,
        Mnemonic::Dex => "DEX"@,
        Mnemonic::Dey => "DEY"@,
        Mnemonic::Eor => "EOR"@,
        Mnemonic::Inc => "INC"@,
        Mnemonic::Inx => "INX"@,
        Mnemonic::Iny => "INY"@,
        Mnemonic::Jmp => "JMP"@,
        Mnemonic::Jsr => "JSR"@,
        Mnemonic::Lda => "LDA"@,
        Mnemonic::Ldx => "LDX"@,
        Mnemonic::Ldy => "LDY"@,
        Mnemonic::Lsr => "LSR"@,
        Mnemonic::Nop => "NOP"@,
        Mnemonic::Ora => "ORA"@,
        Mnemonic::Pha => "PHA"@,
        Mnemonic::Php => "PHP"@,
        Mnemonic::Pla => "PLA"@,
        Mnemonic::Plp => "PLP"@,
        Mnemonic::Rol => "ROL"@,
        Mnemonic::Ror => "ROR"@,
        Mnemonic::Rti => "RTI"@,
        Mnemonic::Rts => "RTS"@,
        Mnemonic::Sbc => "SBC"@,
        Mnemonic::Sec => "SEC"@,
        Mnemonic::Sed => "SED"@,
        Mnemonic::Sei => "SEI"@,
        Mnemonic::Sta => "STA"@,
        Mnemonic::Stx => "STX"@,
        Mnemonic::Sty => "STY"@,
        Mnemonic::Tax => "TAX"@,
        Mnemonic::Tay => "TAY"@,
        Mnemonic::Tsx => "TSX"@,
        Mnemonic::Txa => "TXA"@,
        Mnemonic::Txs => "TXS"@,
        Mnemonic::Tya => "TYA"@,
    }
}

/// Whether `mnemonic` takes its absolute operand as a target to jump to, so
/// that no byte is read there.
pub open spec fn is_jump(mnemonic: Mnemonic) -> bool {
    mnemonic == Mnemonic::Jmp || mnemonic == Mnemonic::Jsr
}

/// The operand as text, for a machine whose program counter stands on the
/// first operand byte.
pub open spec fn operand_text(m: Machine, mnemonic: Mnemonic, mode: AddrMode) -> Seq<char> {
    let byte = m.read(m.pc);
    let operand = m.operand(mode);
    let target = address_of(operand);
    let value = " = "@ + hex2(m.read(target));
    match mode {
        AddrMode::Implied => Seq::empty(),
        AddrMode::Accumulator => "A"@,
        AddrMode::Immediate => "#$"@ + hex2(byte),
        AddrMode::ZeroPage => "$"@ + hex2(byte) + value,
        AddrMode::ZeroPageX => "$"@ + hex2(byte) + ",X @ "@ + hex2(low_byte(target)) + value,
        AddrMode::ZeroPageY => "$"@ + hex2(byte) + ",Y @ "@ + hex2(low_byte(target)) + value,
        AddrMode::Absolute => if is_jump(mnemonic) {
            "$"@ + hex4(target)
        } else {
            "$"@ + hex4(target) + value
        },
        AddrMode::AbsoluteX => "$"@ + hex4(m.read_word(m.pc)) + ",X @ "@ + hex4(target) + value,
        AddrMode::AbsoluteY => "$"@ + hex4(m.read_word(m.pc)) + ",Y @ "@ + hex4(target) + value,
        AddrMode::Indirect => "($"@ + hex4(m.read_word(m.pc)) + ") = "@ + hex4(target),
        AddrMode::IndexedIndirect => "($"@ + hex2(byte) + ",X) @ "@ + hex2(wrap8(byte + m.x))
            + " = "@ + hex4(target) + value,
        AddrMode::IndirectIndexed => "($"@ + hex2(byte) + "),Y = "@ + hex4(
            m.read_word_zero_page(byte),
        ) + " @ "@ + hex4(target) + value,
        AddrMode::Relative => "$"@ + hex4(wrap16(m.pc + 1 + offset_of(operand))),
    }
}

/// Mnemonic and operand as text, for a machine whose program counter
/// stands on the first operand byte.
pub open spec fn disassembly(m: Machine, mnemonic: Mnemonic, mode: AddrMode) -> Seq<char> {
    if mode == AddrMode::Implied {
        mnemonic_name(mnemonic)
    } else {
        mnemonic_name(mnemonic) + " "@ + operand_text(m, mnemonic, mode)
    }
}

/// The three letters of a mnemonic.
pub fn mnemonic_str(mnemonic: Mnemonic) -> (name: &'static str)
    ensures
        name@ == mnemonic_name(mnemonic),
{
    match mnemonic {
        Mnemonic::Adc => "ADC",
        Mnemonic::And => "AND",
        Mnemonic::Asl => "ASL",
        Mnemonic::Bcc => "BCC",
        Mnemonic::Bcs => "BCS",
        Mnemonic::Beq => "BEQ",
        Mnemonic::Bit => "BIT",
        Mnemonic::Bmi => "BMI",
        Mnemonic::Bne => "BNE",
        Mnemonic::Bpl => "BPL",
        Mnemonic::Brk => "BRK",
        Mnemonic::Bvc => "BVC",
        Mnemonic::Bvs => "BVS",
        Mnemonic::Clc => "CLC",
        Mnemonic::Cld => "CLD",
        Mnemonic::Cli => "CLI",
        Mnemonic::Clv => "CLV",
        Mnemonic::Cmp => "CMP",
        Mnemonic::Cpx => "CPX",
        Mnemonic::Cpy => "CPY",
        Mnemonic::Dec => "DEC",
        Mnemonic::Dex => "DEX",
        Mnemonic::Dey => "DEY",
        Mnemonic::Eor => "EOR",
        Mnemonic::Inc => "INC",
        Mnemonic::Inx => "INX",
        Mnemonic::Iny => "INY",
        Mnemonic::Jmp => "JMP",
        Mnemonic::Jsr => "JSR",
        Mnemonic::Lda => "LDA",
        Mnemonic::Ldx => "LDX",
        Mnemonic::Ldy => "LDY",
        Mnemonic::Lsr => "LSR",
        Mnemonic::Nop => "NOP",
        Mnemonic::Ora => "ORA",
        Mnemonic::Pha => "PHA",
        Mnemonic::Php => "PHP",
        Mnemonic::Pla => "PLA",
        Mnemonic::Plp => "PLP",
        Mnemonic::Rol => "ROL",
        Mnemonic::Ror => "ROR",
        Mnemonic::Rti => "RTI",
        Mnemonic::Rts => "RTS",
        Mnemonic::Sbc => "SBC",
        Mnemonic::Sec => "SEC",
        Mnemonic::Sed => "SED",
        Mnemonic::Sei => "SEI",
        Mnemonic::Sta => "STA",
        Mnemonic::Stx => "STX",
        Mnemonic::Sty => "STY",
        Mnemonic::Tax => "TAX",
        Mnemonic::Tay => "TAY",
        Mnemonic::Tsx => "TSX",
        Mnemonic::Txa => "TXA",
        Mnemonic::Txs => "TXS",
        Mnemonic::Tya => "TYA",
    }
}

/// Every mnemonic has three letters.
pub proof fn lemma_mnemonic_width(mnemonic: Mnemonic)
    ensures
        mnemonic_name(mnemonic).len() == 3,
{
    reveal_strlit("ADC");
    reveal_strlit("AND");
    reveal_strlit("ASL");
    reveal_strlit("BCC");
    reveal_strlit("BCS");
    reveal_strlit("BEQ");
    reveal_strlit("BIT");
    reveal_strlit("BMI");
    reveal_strlit("BNE");
    reveal_strlit("BPL");
    reveal_strlit("BRK");
    reveal_strlit("BVC");
    reveal_strlit("BVS");
    reveal_strlit("CLC");
    reveal_strlit("CLD");
    reveal_strlit("CLI");
    reveal_strlit("CLV");
    reveal_strlit("CMP");
    reveal_strlit("CPX");
    reveal_strlit("CPY");
    reveal_strlit("DEC");
    reveal_strlit("DEX");
    reveal_strlit("DEY");
    reveal_strlit("EOR");
    reveal_strlit("INC");
    reveal_strlit("INX");
    reveal_strlit("INY");
    reveal_strlit("JMP");
    reveal_strlit("JSR");
    reveal_strlit("LDA");
    reveal_strlit("LDX");
    reveal_strlit("LDY");
    reveal_strlit("LSR");
    reveal_strlit("NOP");
    reveal_strlit("ORA");
    reveal_strlit("PHA");
    reveal_strlit("PHP");
    reveal_strlit("PLA");
    reveal_strlit("PLP");
    reveal_strlit("ROL");
    reveal_strlit("ROR");
    reveal_strlit("RTI");
    reveal_strlit("RTS");
    reveal_strlit("SBC");
    reveal_strlit("SEC");
    reveal_strlit("SED");
    reveal_strlit("SEI");
    reveal_strlit("STA");
    reveal_strlit("STX");
    reveal_strlit("STY");
    reveal_strlit("TAX");
    reveal_strlit("TAY");
    reveal_strlit("TSX");
    reveal_strlit("TXA");
    reveal_strlit("TXS");
    reveal_strlit("TYA");
}

/// Whether `mnemonic` is a jump.
pub fn jumps(mnemonic: Mnemonic) -> (jump: bool)
    ensures
        jump == is_jump(mnemonic),
{
    match mnemonic {
        Mnemonic::Jmp | Mnemonic::Jsr => true,
        _ => false,
    }
}

impl CPU {
    /// Appends ` = ` and the byte at `target` to `text`.
    fn push_value(&self, text: &mut String, target: u16)
        ensures
            final(text)@ == old(text)@ + (" = "@ + hex2(self@.read(target))),
    {
        text.append(" = ");
        push_hex2(text, self.mem.read(target));
        assert(text@ =~= old(text)@ + (" = "@ + hex2(self@.read(target))));
    }

    /// Writes the operand of an instruction whose operand bytes start at `at`.
    pub fn operand_to_text(&self, at: u16, mnemonic: Mnemonic, mode: AddrMode) -> (text: String)
        ensures
            text@ == operand_text(self@.at(at), mnemonic, mode),
    {
        let ghost m = self@.at(at);
        let byte = self.mem.read(at);
        let target = self.operand_at(at, mode).address();
        let mut text = String::new();
        match mode {
            AddrMode::Implied => {},
            AddrMode::Accumulator => {
                text.append("A");
                assert(text@ =~= operand_text(m, mnemonic, mode));
            },
            AddrMode::Immediate => {
                text.append("#$");
                push_hex2(&mut text, byte);
                assert(text@ =~= operand_text(m, mnemonic, mode));
            },
            AddrMode::ZeroPage => {
                text.append("$");
                push_hex2(&mut text, byte);
                self.push_value(&mut text, target);
                assert(text@ =~= operand_text(m, mnemonic, mode));
            },
            AddrMode::ZeroPageX => {
                text.append("$");
                push_hex2(&mut text, byte);
                text.append(",X @ ");
                push_hex2(&mut text, split_word(target).0);
                self.push_value(&mut text, target);
                assert(text@ =~= operand_text(m, mnemonic, mode));
            },
            AddrMode::ZeroPageY => {
                text.append("$");
                push_hex2(&mut text, byte);
                text.append(",Y @ ");
                push_hex2(&mut text, split_word(target).0);
                self.push_value(&mut text, target);
                assert(text@ =~= operand_text(m, mnemonic, mode));
            },
            AddrMode::Absolute => {
                text.append("$");
                push_hex4(&mut text, target);
                if !jumps(mnemonic) {
                    self.push_value(&mut text, target);
                }
                assert(text@ =~= operand_text(m, mnemonic, mode));
            },
            AddrMode::AbsoluteX => {
                text.append("$");
                push_hex4(&mut text, self.read_word(at));
                text.append(",X @ ");
                push_hex4(&mut text, target);
                self.push_value(&mut text, target);
                assert(text@ =~= operand_text(m, mnemonic, mode));
            },
            AddrMode::AbsoluteY => {
                text.append("$");
                push_hex4(&mut text, self.read_word(at));
                text.append(",Y @ ");
                push_hex4(&mut text, target);
                self.push_value(&mut text, target);
                assert(text@ =~= operand_text(m, mnemonic, mode));
            },
            AddrMode::Indirect => {
                text.append("($");
                push_hex4(&mut text, self.read_word(at));
                text.append(") = ");
                push_hex4(&mut text, target);
                assert(text@ =~= operand_text(m, mnemonic, mode));
            },
            AddrMode::IndexedIndirect => {
                text.append("($");
                push_hex2(&mut text, byte);
                text.append(",X) @ ");
                push_hex2(&mut text, index_zero_page(byte, self.x));
                text.append(" = ");
                push_hex4(&mut text, target);
                self.push_value(&mut text, target);
                assert(text@ =~= operand_text(m, mnemonic, mode));
            },
            AddrMode::IndirectIndexed => {
                text.append("($");
                push_hex2(&mut text, byte);
                text.append("),Y = ");
                push_hex4(&mut text, self.read_word_zero_page(byte));
                text.append(" @ ");
                push_hex4(&mut text, target);
                self.push_value(&mut text, target);
                assert(text@ =~= operand_text(m, mnemonic, mode));
            },
            AddrMode::Relative => {
                text.append("$");
                push_hex4(&mut text, branch_target(at.wrapping_add(1), to_signed(byte)));
                assert(text@ =~= operand_text(m, mnemonic, mode));
            },
        }
        text
    }

    /// The disassembler: mnemonic and operand of an instruction whose
    /// operand bytes start at `at`. It reads memory and changes nothing.
    pub fn disassemble(&self, at: u16, mnemonic: Mnemonic, mode: AddrMode) -> (text: String)
        ensures
            text@ == disassembly(self@.at(at), mnemonic, mode),
    {
        let mut text = String::new();
        text.append(mnemonic_str(mnemonic));
        match mode {
            AddrMode::Implied => {},
            _ => {
                text.append(" ");
                let operand = self.operand_to_text(at, mnemonic, mode);
                text.append(operand.as_str());
            },
        }
        assert(text@ =~= disassembly(self@.at(at), mnemonic, mode));
        text
    }
}

} // verus!
