//! The instruction table: one entry for each documented opcode.
//!
//! The 151 documented opcodes cover 56 mnemonics. Every other byte has no
//! entry, and the processor halts when it fetches one.
use vstd::prelude::*;

verus! {

/// The 56 mnemonics of the instruction set.
#[derive(Clone, Copy, Debug, PartialEq, Eq, Structural)]
pub enum Mnemonic {
    /// Add with carry.
    Adc,
    /// Bitwise AND with the accumulator.
    And,
    /// Arithmetic shift left.
    Asl,
    /// Branch on carry clear.
    Bcc,
    /// Branch on carry set.
    Bcs,
    /// Branch on equal (Zero set).
    Beq,
    /// Test bits.
    Bit,
    /// Branch on minus (Negative set).
    Bmi,
    /// Branch on not equal (Zero clear).
    Bne,
    /// Branch on plus (Negative clear).
    Bpl,
    /// Break.
    Brk,
    /// Branch on overflow clear.
    Bvc,
    /// Branch on overflow set.
    Bvs,
    /// Clear Carry.
    Clc,
    /// Clear Decimal.
    Cld,
    /// Clear Interrupt-disable.
    Cli,
    /// Clear Overflow.
    Clv,
    /// Compare with the accumulator.
    Cmp,
    /// Compare with X.
    Cpx,
    /// Compare with Y.
    Cpy,
    /// Decrement memory.
    Dec,
    /// Decrement X.
    Dex,
    /// Decrement Y.
    Dey,
    /// Bitwise exclusive OR with the accumulator.
    Eor,
    /// Increment memory.
    Inc,
    /// Increment X.
    Inx,
    /// Increment Y.
    Iny,
    /// Jump.
    Jmp,
    /// Jump to subroutine.
    Jsr,
    /// Load the accumulator.
    Lda,
    /// Load X.
    Ldx,
    /// Load Y.
    Ldy,
    /// Logical shift right.
    Lsr,
    /// No operation.
    Nop,
    /// Bitwise OR with the accumulator.
    Ora,
    /// Push the accumulator.
    Pha,
    /// Push the processor status.
    Php,
    /// Pull the accumulator.
    Pla,
    /// Pull the processor status.
    Plp,
    /// Rotate left through Carry.
    Rol,
    /// Rotate right through Carry.
    Ror,
    /// Return from interrupt.
    Rti,
    /// Return from subroutine.
    Rts,
    /// Subtract with carry.
    Sbc,
    /// Set Carry.
    Sec,
    /// Set Decimal.
    Sed,
    /// Set Interrupt-disable.
    Sei,
    /// Store the accumulator.
    Sta,
    /// Store X.
    Stx,
    /// Store Y.
    Sty,
    /// Transfer A to X.
    Tax,
    /// Transfer A to Y.
    Tay,
    /// Transfer the stack pointer to X.
    Tsx,
    /// Transfer X to A.
    Txa,
    /// Transfer X to the stack pointer.
    Txs,
    /// Transfer Y to A.
    Tya,
}

/// The rule by which an instruction finds its operand.
#[derive(Clone, Copy, Debug, PartialEq, Eq, Structural)]
pub enum AddrMode {
    /// No operand.
    Implied,
    /// The accumulator is the operand.
    Accumulator,
    /// The next byte is the operand itself.
    Immediate,
    /// The next byte is an address in page zero.
    ZeroPage,
    /// The next byte plus X, wrapped within page zero.
    ZeroPageX,
    /// The next byte plus Y, wrapped within page zero.
    ZeroPageY,
    /// The next two bytes are a little-endian address.
    Absolute,
    /// The next two bytes, as an address, plus X.
    AbsoluteX,
    /// The next two bytes, as an address, plus Y.
    AbsoluteY,
    /// The next two bytes point at the address (used by `JMP` only).
    Indirect,
    /// `(zp,X)`: the next byte plus X, wrapped within page zero, points at the address.
    IndexedIndirect,
    /// `(zp),Y`: the next byte points at an address, to which Y is added.
    IndirectIndexed,
    /// The next byte is a signed offset from the following instruction.
    Relative,
}

/// One row of the instruction table.
#[derive(Clone, Copy, Debug, PartialEq, Eq, Structural)]
pub struct Entry {
    /// Which instruction this is; the processor picks the handler by it.
    pub mnemonic: Mnemonic,
    /// How the operand is found.
    pub mode: AddrMode,
    /// Number of operand bytes that follow the opcode.
    pub operands: u8,
    /// Base cost in cycles.
    pub cycles: u8,
}

/// Number of operand bytes that an addressing mode consumes.
pub open spec fn operand_bytes(mode: AddrMode) -> u8 {
    match mode {
        AddrMode::Implied | AddrMode::Accumulator => 0,
        AddrMode::Absolute | AddrMode::AbsoluteX | AddrMode::AbsoluteY | AddrMode::Indirect => 2,
        _ => 1,
    }
}

/// The table row for `mnemonic` in `mode`, costing `cycles`.
pub open spec fn row(mnemonic: Mnemonic, mode: AddrMode, cycles: u8) -> Entry {
    Entry { mnemonic, mode, operands: operand_bytes(mode), cycles }
}

/// The instruction table as a function: the entry of `opcode`, if it has one.
#[verifier::opaque]
pub open spec fn decode_spec(opcode: u8) -> Option<Entry> {
    match opcode {
        0x00 => Some(row(Mnemonic::Brk, AddrMode::Implied, 7)),
        0x01 => Some(row(Mnemonic::Ora, AddrMode::IndexedIndirect, 6)),
        0x05 => Some(row(Mnemonic::Ora, AddrMode::ZeroPage, 3)),
        0x06 => Some(row(Mnemonic::Asl, AddrMode::ZeroPage, 5)),
        0x08 => Some(row(Mnemonic::Php, AddrMode::Implied, 3)),
        0x09 => Some(row(Mnemonic::Ora, AddrMode::Immediate, 2)),
        0x0A => Some(row(Mnemonic::Asl, AddrMode::Accumulator, 2)),
        0x0D => Some(row(Mnemonic::Ora, AddrMode::Absolute, 4)),
        0x0E => Some(row(Mnemonic::Asl, AddrMode::Absolute, 6)),
        0x10 => Some(row(Mnemonic::Bpl, AddrMode::Relative, 2)),
        0x11 => Some(row(Mnemonic::Ora, AddrMode::IndirectIndexed, 5)),
        0x15 => Some(row(Mnemonic::Ora, AddrMode::ZeroPageX, 4)),
        0x16 => Some(row(Mnemonic::Asl, AddrMode::ZeroPageX, 6)),
        0x18 => Some(row(Mnemonic::Clc, AddrMode::Implied, 2)),
        0x19 => Some(row(Mnemonic::Ora, AddrMode::AbsoluteY, 4)),
        0x1D => Some(row(Mnemonic::Ora, AddrMode::AbsoluteX, 4)),
        0x1E => Some(row(Mnemonic::Asl, AddrMode::AbsoluteX, 7)),
        0x20 => Some(row(Mnemonic::Jsr, AddrMode::Absolute, 6)),
        0x21 => Some(row(Mnemonic::And, AddrMode::IndexedIndirect, 6)),
        0x24 => Some(row(Mnemonic::Bit, AddrMode::ZeroPage, 3)),
        0x25 => Some(row(Mnemonic::And, AddrMode::ZeroPage, 3)),
        0x26 => Some(row(Mnemonic::Rol, AddrMode::ZeroPage, 5)),
        0x28 => Some(row(Mnemonic::Plp, AddrMode::Implied, 4)),
        0x29 => Some(row(Mnemonic::And, AddrMode::Immediate, 2)),
        0x2A => Some(row(Mnemonic::Rol, AddrMode::Accumulator, 2)),
        0x2C => Some(row(Mnemonic::Bit, AddrMode::Absolute, 4)),
        0x2D => Some(row(Mnemonic::And, AddrMode::Absolute, 4)),
        0x2E => Some(row(Mnemonic::Rol, AddrMode::Absolute, 6)),
        0x30 => Some(row(Mnemonic::Bmi, AddrMode::Relative, 2)),
        0x31 => Some(row(Mnemonic::And, AddrMode::IndirectIndexed, 5)),
        0x35 => Some(row(Mnemonic::And, AddrMode::ZeroPageX, 4)),
        0x36 => Some(row(Mnemonic::Rol, AddrMode::ZeroPageX, 6)),
        0x38 => Some(row(Mnemonic::Sec, AddrMode::Implied, 2)),
        0x39 => Some(row(Mnemonic::And, AddrMode::AbsoluteY, 4)),
        0x3D => Some(row(Mnemonic::And, AddrMode::AbsoluteX, 4)),
        0x3E => Some(row(Mnemonic::Rol, AddrMode::AbsoluteX, 7)),
        0x40 => Some(row(Mnemonic::Rti, AddrMode::Implied, 6)),
        0x41 => Some(row(Mnemonic::Eor, AddrMode::IndexedIndirect, 6)),
        0x45 => Some(row(Mnemonic::Eor, AddrMode::ZeroPage, 3)),
        0x46 => Some(row(Mnemonic::Lsr, AddrMode::ZeroPage, 5)),
        0x48 => Some(row(Mnemonic::Pha, AddrMode::Implied, 3)),
        0x49 => Some(row(Mnemonic::Eor, AddrMode::Immediate, 2)),
        0x4A => Some(row(Mnemonic::Lsr, AddrMode::Accumulator, 2)),
        0x4C => Some(row(Mnemonic::Jmp, AddrMode::Absolute, 3)),
        0x4D => Some(row(Mnemonic::Eor, AddrMode::Absolute, 4)),
        0x4E => Some(row(Mnemonic::Lsr, AddrMode::Absolute, 6)),
        0x50 => Some(row(Mnemonic::Bvc, AddrMode::Relative, 2)),
        0x51 => Some(row(Mnemonic::Eor, AddrMode::IndirectIndexed, 5)),
        0x55 => Some(row(Mnemonic::Eor, AddrMode::ZeroPageX, 4)),
        0x56 => Some(row(Mnemonic::Lsr, AddrMode::ZeroPageX, 6)),
        0x58 => Some(row(Mnemonic::Cli, AddrMode::Implied, 2)),
        0x59 => Some(row(Mnemonic::Eor, AddrMode::AbsoluteY, 4)),
        0x5D => Some(row(Mnemonic::Eor, AddrMode::AbsoluteX, 4)),
        0x5E => Some(row(Mnemonic::Lsr, AddrMode::AbsoluteX, 7)),
        0x60 => Some(row(Mnemonic::Rts, AddrMode::Implied, 6)),
        0x61 => Some(row(Mnemonic::Adc, AddrMode::IndexedIndirect, 6)),
        0x65 => Some(row(Mnemonic::Adc, AddrMode::ZeroPage, 3)),
        0x66 => Some(row(Mnemonic::Ror, AddrMode::ZeroPage, 5)),
        0x68 => Some(row(Mnemonic::Pla, AddrMode::Implied, 4)),
        0x69 => Some(row(Mnemonic::Adc, AddrMode::Immediate, 2)),
        0x6A => Some(row(Mnemonic::Ror, AddrMode::Accumulator, 2)),
        0x6C => Some(row(Mnemonic::Jmp, AddrMode::Indirect, 5)),
        0x6D => Some(row(Mnemonic::Adc, AddrMode::Absolute, 4)),
        0x6E => Some(row(Mnemonic::Ror, AddrMode::Absolute, 6)),
        0x70 => Some(row(Mnemonic::Bvs, AddrMode::Relative, 2)),
        0x71 => Some(row(Mnemonic::Adc, AddrMode::IndirectIndexed, 5)),
        0x75 => Some(row(Mnemonic::Adc, AddrMode::ZeroPageX, 4)),
        0x76 => Some(row(Mnemonic::Ror, AddrMode::ZeroPageX, 6)),
        0x78 => Some(row(Mnemonic::Sei, AddrMode::Implied, 2)),
        0x79 => Some(row(Mnemonic::Adc, AddrMode::AbsoluteY, 4)),
        0x7D => Some(row(Mnemonic::Adc, AddrMode::AbsoluteX, 4)),
        0x7E => Some(row(Mnemonic::Ror, AddrMode::AbsoluteX, 7)),
        0x81 => Some(row(Mnemonic::Sta, AddrMode::IndexedIndirect, 6)),
        0x84 => Some(row(Mnemonic::Sty, AddrMode::ZeroPage, 3)),
        0x85 => Some(row(Mnemonic::Sta, AddrMode::ZeroPage, 3)),
        0x86 => Some(row(Mnemonic::Stx, AddrMode::ZeroPage, 3)),
        0x88 => Some(row(Mnemonic::Dey, AddrMode::Implied, 2)),
        0x8A => Some(row(Mnemonic::Txa, AddrMode::Implied, 2)),
        0x8C => Some(row(Mnemonic::Sty, AddrMode::Absolute, 4)),
        0x8D => Some(row(Mnemonic::Sta, AddrMode::Absolute, 4)),
        0x8E => Some(row(Mnemonic::Stx, AddrMode::Absolute, 4)),
        0x90 => Some(row(Mnemonic::Bcc, AddrMode::Relative, 2)),
        0x91 => Some(row(Mnemonic::Sta, AddrMode::IndirectIndexed, 6)),
        0x94 => Some(row(Mnemonic::Sty, AddrMode::ZeroPageX, 4)),
        0x95 => Some(row(Mnemonic::Sta, AddrMode::ZeroPageX, 4)),
        0x96 => Some(row(Mnemonic::Stx, AddrMode::ZeroPageY, 4)),
        0x98 => Some(row(Mnemonic::Tya, AddrMode::Implied, 2)),
        0x99 => Some(row(Mnemonic::Sta, AddrMode::AbsoluteY, 5)),
        0x9A => Some(row(Mnemonic::Txs, AddrMode::Implied, 2)),
        0x9D => Some(row(Mnemonic::Sta, AddrMode::AbsoluteX, 5)),
        0xA0 => Some(row(Mnemonic::Ldy, AddrMode::Immediate, 2)),
        0xA1 => Some(row(Mnemonic::Lda, AddrMode::IndexedIndirect, 6)),
        0xA2 => Some(row(Mnemonic::Ldx, AddrMode::Immediate, 2)),
        0xA4 => Some(row(Mnemonic::Ldy, AddrMode::ZeroPage, 3)),
        0xA5 => Some(row(Mnemonic::Lda, AddrMode::ZeroPage, 3)),
        0xA6 => Some(row(Mnemonic::Ldx, AddrMode::ZeroPage, 3)),
        0xA8 => Some(row(Mnemonic::Tay, AddrMode::Implied, 2)),
        0xA9 => Some(row(Mnemonic::Lda, AddrMode::Immediate, 2)),
        0xAA => Some(row(Mnemonic::Tax, AddrMode::Implied, 2)),
        0xAC => Some(row(Mnemonic::Ldy, AddrMode::Absolute, 4)),
        0xAD => Some(row(Mnemonic::Lda, AddrMode::Absolute, 4)),
        0xAE => Some(row(Mnemonic::Ldx, AddrMode::Absolute, 4)),
        0xB0 => Some(row(Mnemonic::Bcs, AddrMode::Relative, 2)),
        0xB1 => Some(row(Mnemonic::Lda, AddrMode::IndirectIndexed, 5)),
        0xB4 => Some(row(Mnemonic::Ldy, AddrMode::ZeroPageX, 4)),
        0xB5 => Some(row(Mnemonic::Lda, AddrMode::ZeroPageX, 4)),
        0xB6 => Some(row(Mnemonic::Ldx, AddrMode::ZeroPageY, 4)),
        0xB8 => Some(row(Mnemonic::Clv, AddrMode::Implied, 2)),
        0xB9 => Some(row(Mnemonic::Lda, AddrMode::AbsoluteY, 4)),
        0xBA => Some(row(Mnemonic::Tsx, AddrMode::Implied, 2)),
        0xBC => Some(row(Mnemonic::Ldy, AddrMode::AbsoluteX, 4)),
        0xBD => Some(row(Mnemonic::Lda, AddrMode::AbsoluteX, 4)),
        0xBE => Some(row(Mnemonic::Ldx, AddrMode::AbsoluteY, 4)),
        0xC0 => Some(row(Mnemonic::Cpy, AddrMode::Immediate, 2)),
        0xC1 => Some(row(Mnemonic::Cmp, AddrMode::IndexedIndirect, 6)),
        0xC4 => Some(row(Mnemonic::Cpy, AddrMode::ZeroPage, 3)),
        0xC5 => Some(row(Mnemonic::Cmp, AddrMode::ZeroPage, 3)),
        0xC6 => Some(row(Mnemonic::Dec, AddrMode::ZeroPage, 5)),
        0xC8 => Some(row(Mnemonic::Iny, AddrMode::Implied, 2)),
        0xC9 => Some(row(Mnemonic::Cmp, AddrMode::Immediate, 2)),
        0xCA => Some(row(Mnemonic::Dex, AddrMode::Implied, 2)),
        0xCC => Some(row(Mnemonic::Cpy, AddrMode::Absolute, 4)),
        0xCD => Some(row(Mnemonic::Cmp, AddrMode::Absolute, 4)),
        0xCE => Some(row(Mnemonic::Dec, AddrMode::Absolute, 6)),
        0xD0 => Some(row(Mnemonic::Bne, AddrMode::Relative, 2)),
        0xD1 => Some(row(Mnemonic::Cmp, AddrMode::IndirectIndexed, 5)),
        0xD5 => Some(row(Mnemonic::Cmp, AddrMode::ZeroPageX, 4)),
        0xD6 => Some(row(Mnemonic::Dec, AddrMode::ZeroPageX, 6)),
        0xD8 => Some(row(Mnemonic::Cld, AddrMode::Implied, 2)),
        0xD9 => Some(row(Mnemonic::Cmp, AddrMode::AbsoluteY, 4)),
        0xDD => Some(row(Mnemonic::Cmp, AddrMode::AbsoluteX, 4)),
        0xDE => Some(row(Mnemonic::Dec, AddrMode::AbsoluteX, 7)),
        0xE0 => Some(row(Mnemonic::Cpx, AddrMode::Immediate, 2)),
        0xE1 => Some(row(Mnemonic::Sbc, AddrMode::IndexedIndirect, 6)),
        0xE4 => Some(row(Mnemonic::Cpx, AddrMode::ZeroPage, 3)),
        0xE5 => Some(row(Mnemonic::Sbc, AddrMode::ZeroPage, 3)),
        0xE6 => Some(row(Mnemonic::Inc, AddrMode::ZeroPage, 5)),
        0xE8 => Some(row(Mnemonic::Inx, AddrMode::Implied, 2)),
        0xE9 => Some(row(Mnemonic::Sbc, AddrMode::Immediate, 2)),
        0xEA => Some(row(Mnemonic::Nop, AddrMode::Implied, 2)),
        0xEC => Some(row(Mnemonic::Cpx, AddrMode::Absolute, 4)),
        0xED => Some(row(Mnemonic::Sbc, AddrMode::Absolute, 4)),
        0xEE => Some(row(Mnemonic::Inc, AddrMode::Absolute, 6)),
        0xF0 => Some(row(Mnemonic::Beq, AddrMode::Relative, 2)),
        0xF1 => Some(row(Mnemonic::Sbc, AddrMode::IndirectIndexed, 5)),
        0xF5 => Some(row(Mnemonic::Sbc, AddrMode::ZeroPageX, 4)),
        0xF6 => Some(row(Mnemonic::Inc, AddrMode::ZeroPageX, 6)),
        0xF8 => Some(row(Mnemonic::Sed, AddrMode::Implied, 2)),
        0xF9 => Some(row(Mnemonic::Sbc, AddrMode::AbsoluteY, 4)),
        0xFD => Some(row(Mnemonic::Sbc, AddrMode::AbsoluteX, 4)),
        0xFE => Some(row(Mnemonic::Inc, AddrMode::AbsoluteX, 7)),
        _ => None,
    }
}

impl AddrMode {
    /// Number of operand bytes that this mode consumes.
    pub fn operand_bytes(self) -> (n: u8)
        ensures
            n == operand_bytes(self),
    {
        match self {
            AddrMode::Implied | AddrMode::Accumulator => 0,
            AddrMode::Absolute | AddrMode::AbsoluteX | AddrMode::AbsoluteY | AddrMode::Indirect => 2,
            _ => 1,
        }
    }
}

impl Entry {
    /// The table row for `mnemonic` in `mode`, costing `cycles`.
    pub fn new(mnemonic: Mnemonic, mode: AddrMode, cycles: u8) -> (entry: Entry)
        ensures
            entry == row(mnemonic, mode, cycles),
    {
        Entry { mnemonic, mode, operands: mode.operand_bytes(), cycles }
    }

    /// Length of the whole instruction in bytes, opcode included.
    pub fn size(&self) -> (n: u8)
        ensures
            n == 1 + operand_bytes(self.mode),
    {
        1 + self.mode.operand_bytes()
    }
}

/// Looks `opcode` up in the instruction table.
pub fn decode(opcode: u8) -> (entry: Option<Entry>)
    ensures
        entry == decode_spec(opcode),
{
    reveal(decode_spec);
    match opcode {
        0x00 => Some(Entry::new(Mnemonic::Brk, AddrMode::Implied, 7)),
        0x01 => Some(Entry::new(Mnemonic::Ora, AddrMode::IndexedIndirect, 6)),
        0x05 => Some(Entry::new(Mnemonic::Ora, AddrMode::ZeroPage, 3)),
        0x06 => Some(Entry::new(Mnemonic::Asl, AddrMode::ZeroPage, 5)),
        0x08 => Some(Entry::new(Mnemonic::Php, AddrMode::Implied, 3)),
        0x09 => Some(Entry::new(Mnemonic::Ora, AddrMode::Immediate, 2)),
        0x0A => Some(Entry::new(Mnemonic::Asl, AddrMode::Accumulator, 2)),
        0x0D => Some(Entry::new(Mnemonic::Ora, AddrMode::Absolute, 4)),
        0x0E => Some(Entry::new(Mnemonic::Asl, AddrMode::Absolute, 6)),
        0x10 => Some(Entry::new(Mnemonic::Bpl, AddrMode::Relative, 2)),
        0x11 => Some(Entry::new(Mnemonic::Ora, AddrMode::IndirectIndexed, 5)),
        0x15 => Some(Entry::new(Mnemonic::Ora, AddrMode::ZeroPageX, 4)),
        0x16 => Some(Entry::new(Mnemonic::Asl, AddrMode::ZeroPageX, 6)),
        0x18 => Some(Entry::new(Mnemonic::Clc, AddrMode::Implied, 2)),
        0x19 => Some(Entry::new(Mnemonic::Ora, AddrMode::AbsoluteY, 4)),
        0x1D => Some(Entry::new(Mnemonic::Ora, AddrMode::AbsoluteX, 4)),
        0x1E => Some(Entry::new(Mnemonic::Asl, AddrMode::AbsoluteX, 7)),
        0x20 => Some(Entry::new(Mnemonic::Jsr, AddrMode::Absolute, 6)),
        0x21 => Some(Entry::new(Mnemonic::And, AddrMode::IndexedIndirect, 6)),
        0x24 => Some(Entry::new(Mnemonic::Bit, AddrMode::ZeroPage, 3)),
        0x25 => Some(Entry::new(Mnemonic::And, AddrMode::ZeroPage, 3)),
        0x26 => Some(Entry::new(Mnemonic::Rol, AddrMode::ZeroPage, 5)),
        0x28 => Some(Entry::new(Mnemonic::Plp, AddrMode::Implied, 4)),
        0x29 => Some(Entry::new(Mnemonic::And, AddrMode::Immediate, 2)),
        0x2A => Some(Entry::new(Mnemonic::Rol, AddrMode::Accumulator, 2)),
        0x2C => Some(Entry::new(Mnemonic::Bit, AddrMode::Absolute, 4)),
        0x2D => Some(Entry::new(Mnemonic::And, AddrMode::Absolute, 4)),
        0x2E => Some(Entry::new(Mnemonic::Rol, AddrMode::Absolute, 6)),
        0x30 => Some(Entry::new(Mnemonic::Bmi, AddrMode::Relative, 2)),
        0x31 => Some(Entry::new(Mnemonic::And, AddrMode::IndirectIndexed, 5)),
        0x35 => Some(Entry::new(Mnemonic::And, AddrMode::ZeroPageX, 4)),
        0x36 => Some(Entry::new(Mnemonic::Rol, AddrMode::ZeroPageX, 6)),
        0x38 => Some(Entry::new(Mnemonic::Sec, AddrMode::Implied, 2)),
        0x39 => Some(Entry::new(Mnemonic::And, AddrMode::AbsoluteY, 4)),
        0x3D => Some(Entry::new(Mnemonic::And, AddrMode::AbsoluteX, 4)),
        0x3E => Some(Entry::new(Mnemonic::Rol, AddrMode::AbsoluteX, 7)),
        0x40 => Some(Entry::new(Mnemonic::Rti, AddrMode::Implied, 6)),
        0x41 => Some(Entry::new(Mnemonic::Eor, AddrMode::IndexedIndirect, 6)),
        0x45 => Some(Entry::new(Mnemonic::Eor, AddrMode::ZeroPage, 3)),
        0x46 => Some(Entry::new(Mnemonic::Lsr, AddrMode::ZeroPage, 5)),
        0x48 => Some(Entry::new(Mnemonic::Pha, AddrMode::Implied, 3)),
        0x49 => Some(Entry::new(Mnemonic::Eor, AddrMode::Immediate, 2)),
        0x4A => Some(Entry::new(Mnemonic::Lsr, AddrMode::Accumulator, 2)),
        0x4C => Some(Entry::new(Mnemonic::Jmp, AddrMode::Absolute, 3)),
        0x4D => Some(Entry::new(Mnemonic::Eor, AddrMode::Absolute, 4)),
        0x4E => Some(Entry::new(Mnemonic::Lsr, AddrMode::Absolute, 6)),
        0x50 => Some(Entry::new(Mnemonic::Bvc, AddrMode::Relative, 2)),
        0x51 => Some(Entry::new(Mnemonic::Eor, AddrMode::IndirectIndexed, 5)),
        0x55 => Some(Entry::new(Mnemonic::Eor, AddrMode::ZeroPageX, 4)),
        0x56 => Some(Entry::new(Mnemonic::Lsr, AddrMode::ZeroPageX, 6)),
        0x58 => Some(Entry::new(Mnemonic::Cli, AddrMode::Implied, 2)),
        0x59 => Some(Entry::new(Mnemonic::Eor, AddrMode::AbsoluteY, 4)),
        0x5D => Some(Entry::new(Mnemonic::Eor, AddrMode::AbsoluteX, 4)),
        0x5E => Some(Entry::new(Mnemonic::Lsr, AddrMode::AbsoluteX, 7)),
        0x60 => Some(Entry::new(Mnemonic::Rts, AddrMode::Implied, 6)),
        0x61 => Some(Entry::new(Mnemonic::Adc, AddrMode::IndexedIndirect, 6)),
        0x65 => Some(Entry::new(Mnemonic::Adc, AddrMode::ZeroPage, 3)),
        0x66 => Some(Entry::new(Mnemonic::Ror, AddrMode::ZeroPage, 5)),
        0x68 => Some(Entry::new(Mnemonic::Pla, AddrMode::Implied, 4)),
        0x69 => Some(Entry::new(Mnemonic::Adc, AddrMode::Immediate, 2)),
        0x6A => Some(Entry::new(Mnemonic::Ror, AddrMode::Accumulator, 2)),
        0x6C => Some(Entry::new(Mnemonic::Jmp, AddrMode::Indirect, 5)),
        0x6D => Some(Entry::new(Mnemonic::Adc, AddrMode::Absolute, 4)),
        0x6E => Some(Entry::new(Mnemonic::Ror, AddrMode::Absolute, 6)),
        0x70 => Some(Entry::new(Mnemonic::Bvs, AddrMode::Relative, 2)),
        0x71 => Some(Entry::new(Mnemonic::Adc, AddrMode::IndirectIndexed, 5)),
        0x75 => Some(Entry::new(Mnemonic::Adc, AddrMode::ZeroPageX, 4)),
        0x76 => Some(Entry::new(Mnemonic::Ror, AddrMode::ZeroPageX, 6)),
        0x78 => Some(Entry::new(Mnemonic::Sei, AddrMode::Implied, 2)),
        0x79 => Some(Entry::new(Mnemonic::Adc, AddrMode::AbsoluteY, 4)),
        0x7D => Some(Entry::new(Mnemonic::Adc, AddrMode::AbsoluteX, 4)),
        0x7E => Some(Entry::new(Mnemonic::Ror, AddrMode::AbsoluteX, 7)),
        0x81 => Some(Entry::new(Mnemonic::Sta, AddrMode::IndexedIndirect, 6)),
        0x84 => Some(Entry::new(Mnemonic::Sty, AddrMode::ZeroPage, 3)),
        0x85 => Some(Entry::new(Mnemonic::Sta, AddrMode::ZeroPage, 3)),
        0x86 => Some(Entry::new(Mnemonic::Stx, AddrMode::ZeroPage, 3)),
        0x88 => Some(Entry::new(Mnemonic::Dey, AddrMode::Implied, 2)),
        0x8A => Some(Entry::new(Mnemonic::Txa, AddrMode::Implied, 2)),
        0x8C => Some(Entry::new(Mnemonic::Sty, AddrMode::Absolute, 4)),
        0x8D => Some(Entry::new(Mnemonic::Sta, AddrMode::Absolute, 4)),
        0x8E => Some(Entry::new(Mnemonic::Stx, AddrMode::Absolute, 4)),
        0x90 => Some(Entry::new(Mnemonic::Bcc, AddrMode::Relative, 2)),
        0x91 => Some(Entry::new(Mnemonic::Sta, AddrMode::IndirectIndexed, 6)),
        0x94 => Some(Entry::new(Mnemonic::Sty, AddrMode::ZeroPageX, 4)),
        0x95 => Some(Entry::new(Mnemonic::Sta, AddrMode::ZeroPageX, 4)),
        0x96 => Some(Entry::new(Mnemonic::Stx, AddrMode::ZeroPageY, 4)),
        0x98 => Some(Entry::new(Mnemonic::Tya, AddrMode::Implied, 2)),
        0x99 => Some(Entry::new(Mnemonic::Sta, AddrMode::AbsoluteY, 5)),
        0x9A => Some(Entry::new(Mnemonic::Txs, AddrMode::Implied, 2)),
        0x9D => Some(Entry::new(Mnemonic::Sta, AddrMode::AbsoluteX, 5)),
        0xA0 => Some(Entry::new(Mnemonic::Ldy, AddrMode::Immediate, 2)),
        0xA1 => Some(Entry::new(Mnemonic::Lda, AddrMode::IndexedIndirect, 6)),
        0xA2 => Some(Entry::new(Mnemonic::Ldx, AddrMode::Immediate, 2)),
        0xA4 => Some(Entry::new(Mnemonic::Ldy, AddrMode::ZeroPage, 3)),
        0xA5 => Some(Entry::new(Mnemonic::Lda, AddrMode::ZeroPage, 3)),
        0xA6 => Some(Entry::new(Mnemonic::Ldx, AddrMode::ZeroPage, 3)),
        0xA8 => Some(Entry::new(Mnemonic::Tay, AddrMode::Implied, 2)),
        0xA9 => Some(Entry::new(Mnemonic::Lda, AddrMode::Immediate, 2)),
        0xAA => Some(Entry::new(Mnemonic::Tax, AddrMode::Implied, 2)),
        0xAC => Some(Entry::new(Mnemonic::Ldy, AddrMode::Absolute, 4)),
        0xAD => Some(Entry::new(Mnemonic::Lda, AddrMode::Absolute, 4)),
        0xAE => Some(Entry::new(Mnemonic::Ldx, AddrMode::Absolute, 4)),
        0xB0 => Some(Entry::new(Mnemonic::Bcs, AddrMode::Relative, 2)),
        0xB1 => Some(Entry::new(Mnemonic::Lda, AddrMode::IndirectIndexed, 5)),
        0xB4 => Some(Entry::new(Mnemonic::Ldy, AddrMode::ZeroPageX, 4)),
        0xB5 => Some(Entry::new(Mnemonic::Lda, AddrMode::ZeroPageX, 4)),
        0xB6 => Some(Entry::new(Mnemonic::Ldx, AddrMode::ZeroPageY, 4)),
        0xB8 => Some(Entry::new(Mnemonic::Clv, AddrMode::Implied, 2)),
        0xB9 => Some(Entry::new(Mnemonic::Lda, AddrMode::AbsoluteY, 4)),
        0xBA => Some(Entry::new(Mnemonic::Tsx, AddrMode::Implied, 2)),
        0xBC => Some(Entry::new(Mnemonic::Ldy, AddrMode::AbsoluteX, 4)),
        0xBD => Some(Entry::new(Mnemonic::Lda, AddrMode::AbsoluteX, 4)),
        0xBE => Some(Entry::new(Mnemonic::Ldx, AddrMode::AbsoluteY, 4)),
        0xC0 => Some(Entry::new(Mnemonic::Cpy, AddrMode::Immediate, 2)),
        0xC1 => Some(Entry::new(Mnemonic::Cmp, AddrMode::IndexedIndirect, 6)),
        0xC4 => Some(Entry::new(Mnemonic::Cpy, AddrMode::ZeroPage, 3)),
        0xC5 => Some(Entry::new(Mnemonic::Cmp, AddrMode::ZeroPage, 3)),
        0xC6 => Some(Entry::new(Mnemonic::Dec, AddrMode::ZeroPage, 5)),
        0xC8 => Some(Entry::new(Mnemonic::Iny, AddrMode::Implied, 2)),
        0xC9 => Some(Entry::new(Mnemonic::Cmp, AddrMode::Immediate, 2)),
        0xCA => Some(Entry::new(Mnemonic::Dex, AddrMode::Implied, 2)),
        0xCC => Some(Entry::new(Mnemonic::Cpy, AddrMode::Absolute, 4)),
        0xCD => Some(Entry::new(Mnemonic::Cmp, AddrMode::Absolute, 4)),
        0xCE => Some(Entry::new(Mnemonic::Dec, AddrMode::Absolute, 6)),
        0xD0 => Some(Entry::new(Mnemonic::Bne, AddrMode::Relative, 2)),
        0xD1 => Some(Entry::new(Mnemonic::Cmp, AddrMode::IndirectIndexed, 5)),
        0xD5 => Some(Entry::new(Mnemonic::Cmp, AddrMode::ZeroPageX, 4)),
        0xD6 => Some(Entry::new(Mnemonic::Dec, AddrMode::ZeroPageX, 6)),
        0xD8 => Some(Entry::new(Mnemonic::Cld, AddrMode::Implied, 2)),
        0xD9 => Some(Entry::new(Mnemonic::Cmp, AddrMode::AbsoluteY, 4)),
        0xDD => Some(Entry::new(Mnemonic::Cmp, AddrMode::AbsoluteX, 4)),
        0xDE => Some(Entry::new(Mnemonic::Dec, AddrMode::AbsoluteX, 7)),
        0xE0 => Some(Entry::new(Mnemonic::Cpx, AddrMode::Immediate, 2)),
        0xE1 => Some(Entry::new(Mnemonic::Sbc, AddrMode::IndexedIndirect, 6)),
        0xE4 => Some(Entry::new(Mnemonic::Cpx, AddrMode::ZeroPage, 3)),
        0xE5 => Some(Entry::new(Mnemonic::Sbc, AddrMode::ZeroPage, 3)),
        0xE6 => Some(Entry::new(Mnemonic::Inc, AddrMode::ZeroPage, 5)),
        0xE8 => Some(Entry::new(Mnemonic::Inx, AddrMode::Implied, 2)),
        0xE9 => Some(Entry::new(Mnemonic::Sbc, AddrMode::Immediate, 2)),
        0xEA => Some(Entry::new(Mnemonic::Nop, AddrMode::Implied, 2)),
        0xEC => Some(Entry::new(Mnemonic::Cpx, AddrMode::Absolute, 4)),
        0xED => Some(Entry::new(Mnemonic::Sbc, AddrMode::Absolute, 4)),
        0xEE => Some(Entry::new(Mnemonic::Inc, AddrMode::Absolute, 6)),
        0xF0 => Some(Entry::new(Mnemonic::Beq, AddrMode::Relative, 2)),
        0xF1 => Some(Entry::new(Mnemonic::Sbc, AddrMode::IndirectIndexed, 5)),
        0xF5 => Some(Entry::new(Mnemonic::Sbc, AddrMode::ZeroPageX, 4)),
        0xF6 => Some(Entry::new(Mnemonic::Inc, AddrMode::ZeroPageX, 6)),
        0xF8 => Some(Entry::new(Mnemonic::Sed, AddrMode::Implied, 2)),
        0xF9 => Some(Entry::new(Mnemonic::Sbc, AddrMode::AbsoluteY, 4)),
        0xFD => Some(Entry::new(Mnemonic::Sbc, AddrMode::AbsoluteX, 4)),
        0xFE => Some(Entry::new(Mnemonic::Inc, AddrMode::AbsoluteX, 7)),
        _ => None,
    }
}

/// Every table entry consumes as many operand bytes as its addressing mode
/// says, never more than two, and costs between two and seven cycles.
pub proof fn lemma_table_entries(opcode: u8)
    ensures
        decode_spec(opcode) matches Some(entry) ==> entry.operands == operand_bytes(entry.mode)
            && entry.operands <= 2 && 2 <= entry.cycles <= 7,
{
    reveal(decode_spec);
}

} // verus!
