//! The mathematical machine: registers, memory cells and run state as plain
//! values. Every contract of the processor is stated over this model.
use crate::memory::{read_cell, write_cell, MEMORY_SIZE};
use crate::status::flag_set;
use crate::table::AddrMode;
use vstd::prelude::*;

verus! {

/// First address of the stack page, `0x0100..=0x01FF`.
pub const STACK_PAGE: u16 = 0x0100;

/// Stack pointer after reset.
pub const RESET_STACK_POINTER: u8 = 0xFD;

/// Status register with which a loaded program starts.
pub const RESET_STATUS: u8 = 0x24;

/// Address of the vector through which `BRK` jumps.
pub const BREAK_VECTOR: u16 = 0xFFFE;

/// The two states of the dispatch loop.
#[derive(Clone, Copy, Debug, PartialEq, Eq, Structural)]
pub enum RunState {
    /// Instructions are fetched and executed.
    Running,
    /// Nothing is executed any more until the machine is reset.
    Halted,
}

/// An operand as the addressing-mode resolver hands it to a handler.
#[derive(Clone, Copy, Debug, PartialEq, Eq, Structural)]
pub enum Operand {
    /// The instruction has no operand.
    Implied,
    /// The instruction works on the accumulator.
    Accumulator,
    /// A literal byte.
    Immediate(u8),
    /// The address of the byte to work on, or the target of a jump.
    Address(u16),
    /// A signed branch offset.
    Relative(i8),
}

/// `i` reduced to eight bits.
pub open spec fn wrap8(i: int) -> u8 {
    (i % 0x100) as u8
}

/// `i` reduced to sixteen bits.
pub open spec fn wrap16(i: int) -> u16 {
    (i % 0x1_0000) as u16
}

/// The byte `b` read as a two's-complement number.
pub open spec fn signed(b: u8) -> int {
    if b >= 0x80 {
        b - 0x100
    } else {
        b as int
    }
}

/// The sixteen-bit word with low byte `lo` and high byte `hi`.
pub open spec fn word(lo: u8, hi: u8) -> u16 {
    (lo + 0x100 * hi) as u16
}

/// Low byte of `v`.
pub open spec fn low_byte(v: u16) -> u8 {
    (v % 0x100) as u8
}

/// High byte of `v`.
pub open spec fn high_byte(v: u16) -> u8 {
    (v / 0x100) as u8
}

/// The whole state of the processor and its memory.
#[verifier::ext_equal]
pub struct Machine {
    /// Program counter: the address of the next byte to fetch.
    pub pc: u16,
    /// Stack pointer: an offset into the stack page.
    pub s: u8,
    /// Status register.
    pub p: u8,
    /// Accumulator.
    pub a: u8,
    /// Index register X.
    pub x: u8,
    /// Index register Y.
    pub y: u8,
    /// The 65536 memory cells.
    pub mem: Seq<u8>,
    /// Whether the dispatch loop still runs.
    pub state: RunState,
    /// Base cycles of all instructions executed so far, modulo 2^64.
    pub cycles: u64,
}

impl Machine {
    /// The memory has all of its cells.
    pub open spec fn wf(self) -> bool {
        self.mem.len() == MEMORY_SIZE
    }

    /// The machine right after power-on: cleared registers and memory, the
    /// stack pointer at `0xFD`, running.
    pub open spec fn initial() -> Machine {
        Machine {
            pc: 0,
            s: RESET_STACK_POINTER,
            p: 0,
            a: 0,
            x: 0,
            y: 0,
            mem: Seq::new(MEMORY_SIZE as nat, |i: int| 0u8),
            state: RunState::Running,
            cycles: 0,
        }
    }

    /// The byte read at `addr`.
    pub open spec fn read(self, addr: u16) -> u8 {
        read_cell(self.mem, addr)
    }

    /// The machine after `value` was written to `addr`.
    pub open spec fn write(self, addr: u16, value: u8) -> Machine {
        Machine { mem: write_cell(self.mem, addr, value), ..self }
    }

    /// Whether the flag `mask` is set.
    pub open spec fn flag(self, mask: u8) -> bool {
        flag_set(self.p, mask)
    }

    /// The Carry flag as a number.
    pub open spec fn carry(self) -> int {
        if flag_set(self.p, crate::status::CARRY) {
            1
        } else {
            0
        }
    }

    /// The machine with the program counter moved on by `n` bytes.
    pub open spec fn advance(self, n: int) -> Machine {
        Machine { pc: wrap16(self.pc + n), ..self }
    }

    /// The machine with the program counter at `addr`.
    pub open spec fn at(self, addr: u16) -> Machine {
        Machine { pc: addr, ..self }
    }

    /// The `n` bytes that stand at `addr` and the addresses after it.
    pub open spec fn bytes_at(self, addr: u16, n: nat) -> Seq<u8> {
        Seq::new(n, |i: int| self.read(wrap16(addr + i)))
    }

    /// The little-endian word at `addr` and the address after it.
    pub open spec fn read_word(self, addr: u16) -> u16 {
        word(self.read(addr), self.read(wrap16(addr + 1)))
    }

    /// The little-endian word at `ptr` in page zero; the second byte comes
    /// from page zero too, also when `ptr` is `0xFF`.
    pub open spec fn read_word_zero_page(self, ptr: u8) -> u16 {
        word(self.read(ptr as u16), self.read(wrap8(ptr + 1) as u16))
    }

    /// The little-endian word at `addr` whose second byte comes from the same
    /// page as the first, as an indirect jump fetches it.
    pub open spec fn read_word_same_page(self, addr: u16) -> u16 {
        word(self.read(addr), self.read(word(wrap8(low_byte(addr) + 1), high_byte(addr))))
    }

    /// Address of the stack cell that the stack pointer names.
    pub open spec fn stack_address(self) -> u16 {
        (STACK_PAGE + self.s) as u16
    }

    /// Push: `value` is written at `0x0100 + S`, then `S` is decremented,
    /// wrapping within the page.
    pub open spec fn push(self, value: u8) -> Machine {
        Machine { s: wrap8(self.s - 1), ..self.write(self.stack_address(), value) }
    }

    /// First half of a pull: `S` is incremented, wrapping within the page.
    pub open spec fn pop(self) -> Machine {
        Machine { s: wrap8(self.s + 1), ..self }
    }

    /// Second half of a pull: the byte at `0x0100 + S`.
    pub open spec fn top(self) -> u8 {
        self.read(self.stack_address())
    }

    /// What the resolver yields for `mode` when the program counter stands on
    /// the first operand byte.
    pub open spec fn operand(self, mode: AddrMode) -> Operand {
        let byte = self.read(self.pc);
        match mode {
            AddrMode::Implied => Operand::Implied,
            AddrMode::Accumulator => Operand::Accumulator,
            AddrMode::Immediate => Operand::Immediate(byte),
            AddrMode::ZeroPage => Operand::Address(byte as u16),
            AddrMode::ZeroPageX => Operand::Address(wrap8(byte + self.x) as u16),
            AddrMode::ZeroPageY => Operand::Address(wrap8(byte + self.y) as u16),
            AddrMode::Absolute => Operand::Address(self.read_word(self.pc)),
            AddrMode::AbsoluteX => Operand::Address(wrap16(self.read_word(self.pc) + self.x)),
            AddrMode::AbsoluteY => Operand::Address(wrap16(self.read_word(self.pc) + self.y)),
            AddrMode::Indirect => Operand::Address(
                self.read_word_same_page(self.read_word(self.pc)),
            ),
            AddrMode::IndexedIndirect => Operand::Address(
                self.read_word_zero_page(wrap8(byte + self.x)),
            ),
            AddrMode::IndirectIndexed => Operand::Address(
                wrap16(self.read_word_zero_page(byte) + self.y),
            ),
            AddrMode::Relative => Operand::Relative(signed(byte) as i8),
        }
    }

    /// The byte that `operand` stands for: the literal, the accumulator, or
    /// the byte at the address. An operand without a value gives zero.
    pub open spec fn value(self, operand: Operand) -> u8 {
        match operand {
            Operand::Immediate(v) => v,
            Operand::Accumulator => self.a,
            Operand::Address(addr) => self.read(addr),
            _ => 0,
        }
    }

    /// The machine after `value` was stored where `operand` points: in the
    /// accumulator or at the address. Other operands store nothing.
    pub open spec fn store(self, operand: Operand, value: u8) -> Machine {
        match operand {
            Operand::Accumulator => Machine { a: value, ..self },
            Operand::Address(addr) => self.write(addr, value),
            _ => self,
        }
    }
}

/// The address that `operand` holds; zero where it holds none.
pub open spec fn address_of(operand: Operand) -> u16 {
    match operand {
        Operand::Address(addr) => addr,
        _ => 0,
    }
}

/// The branch offset that `operand` holds; zero where it holds none.
pub open spec fn offset_of(operand: Operand) -> i8 {
    match operand {
        Operand::Relative(offset) => offset,
        _ => 0,
    }
}

impl Operand {
    /// The address that the operand holds; zero where it holds none.
    pub fn address(self) -> (addr: u16)
        ensures
            addr == address_of(self),
    {
        match self {
            Operand::Address(addr) => addr,
            _ => 0,
        }
    }

    /// The branch offset that the operand holds; zero where it holds none.
    pub fn offset(self) -> (offset: i8)
        ensures
            offset == offset_of(self),
    {
        match self {
            Operand::Relative(offset) => offset,
            _ => 0,
        }
    }
}

} // verus!
