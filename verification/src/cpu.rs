//! The processor: register file, memory space and run state, with the
//! addressing-mode resolver and the stack manager.
use crate::machine::{
    high_byte, low_byte, signed, word, wrap16, wrap8, Machine, Operand, RunState,
    RESET_STACK_POINTER, RESET_STATUS, STACK_PAGE,
};
use crate::memory::{load_check, load_image, LoadError, MemMap, Memory};
use crate::status::{assign_flag, set_zero_negative, test_flag, with_zero_negative};
use crate::status::{CARRY, NEGATIVE, ZERO};
use crate::table::{operand_bytes, AddrMode};
use crate::trace::{registers_text, registers_to_text};
use vstd::prelude::*;

verus! {

/// Length of the header that precedes the program bytes of a ROM file.
pub const ROM_HEADER_LEN: usize = 16;

/// Largest number of program bytes taken from a ROM file: one 16 KB bank.
pub const ROM_BANK_LEN: usize = 0x4000;

/// The register file as plain values.
#[derive(Clone, Copy, Debug, PartialEq, Eq, Structural)]
pub struct Registers {
    /// Program counter.
    pub pc: u16,
    /// Stack pointer.
    pub s: u8,
    /// Status register.
    pub p: u8,
    /// Accumulator.
    pub a: u8,
    /// Index register X.
    pub x: u8,
    /// Index register Y.
    pub y: u8,
}

/// Which end of the stack page the stack pointer has reached.
#[derive(Clone, Copy, Debug, PartialEq, Eq, Structural)]
pub enum StackBoundary {
    /// `S` is `0x00`: the next push wraps to the top of the page.
    Overflow,
    /// `S` is `0xFF`: the next pull wraps to the bottom of the page.
    Underflow,
}

/// The processor with its memory.
///
/// The stack wraps within its page as the hardware does; [`CPU::stack_boundary`]
/// tells a caller who cares that the next push or pull will wrap.
#[allow(non_snake_case)]
pub struct CPU {
    pub(crate) pc: u16,
    pub(crate) s: u8,
    pub(crate) p: u8,
    pub(crate) a: u8,
    pub(crate) x: u8,
    pub(crate) y: u8,
    pub(crate) mem: Memory,
    pub(crate) state: RunState,
    pub(crate) cycles: u64,
}

impl View for CPU {
    type V = Machine;

    open(crate) spec fn view(&self) -> Machine {
        Machine {
            pc: self.pc,
            s: self.s,
            p: self.p,
            a: self.a,
            x: self.x,
            y: self.y,
            mem: self.mem@,
            state: self.state,
            cycles: self.cycles,
        }
    }
}

/// The register file of the machine `m`.
pub open spec fn registers_of(m: Machine) -> Registers {
    Registers { pc: m.pc, s: m.s, p: m.p, a: m.a, x: m.x, y: m.y }
}

/// The machine `m` with its register file replaced by `r`.
pub open spec fn with_registers(m: Machine, r: Registers) -> Machine {
    Machine { pc: r.pc, s: r.s, p: r.p, a: r.a, x: r.x, y: r.y, ..m }
}

/// The program bytes of a ROM file: what follows the 16-byte header, up to
/// one bank of 16 KB.
pub open spec fn program_of(rom: Seq<u8>) -> Seq<u8> {
    if rom.len() <= ROM_HEADER_LEN {
        Seq::empty()
    } else if rom.len() <= ROM_HEADER_LEN + ROM_BANK_LEN {
        rom.subrange(ROM_HEADER_LEN as int, rom.len() as int)
    } else {
        rom.subrange(ROM_HEADER_LEN as int, (ROM_HEADER_LEN + ROM_BANK_LEN) as int)
    }
}

/// The machine `m` after `image` was loaded into the window `region`: the
/// bytes are in memory, the program counter stands on the first of them and
/// the status register holds its reset value.
pub open spec fn loaded(m: Machine, region: MemMap, image: Seq<u8>) -> Machine {
    Machine {
        mem: load_image(m.mem, region.origin_spec(), image),
        pc: region.origin_spec(),
        p: RESET_STATUS,
        ..m
    }
}

/// The program bytes of a ROM file.
pub fn program_bytes(rom: &[u8]) -> (program: &[u8])
    ensures
        program@ == program_of(rom@),
{
    if rom.len() <= ROM_HEADER_LEN {
        let program = &rom[0..0];
        assert(program@ =~= Seq::<u8>::empty());
        program
    } else if rom.len() <= ROM_HEADER_LEN + ROM_BANK_LEN {
        &rom[ROM_HEADER_LEN..rom.len()]
    } else {
        &rom[ROM_HEADER_LEN..ROM_HEADER_LEN + ROM_BANK_LEN]
    }
}

/// The byte `b` as a signed offset.
pub fn to_signed(b: u8) -> (offset: i8)
    ensures
        offset == signed(b),
{
    if b >= 0x80 {
        (b as i16 - 0x100) as i8
    } else {
        b as i8
    }
}

/// Joins a low and a high byte.
pub fn make_word(lo: u8, hi: u8) -> (w: u16)
    ensures
        w == word(lo, hi),
{
    lo as u16 + 0x100 * (hi as u16)
}

/// Splits a word into its low and its high byte.
pub fn split_word(w: u16) -> (bytes: (u8, u8))
    ensures
        bytes.0 == low_byte(w),
        bytes.1 == high_byte(w),
        word(bytes.0, bytes.1) == w,
{
    ((w % 0x100) as u8, (w / 0x100) as u8)
}

/// Adds an index register to an address in page zero; the sum stays in page zero.
pub fn index_zero_page(base: u8, index: u8) -> (addr: u8)
    ensures
        addr == wrap8(base + index),
{
    base.wrapping_add(index)
}

/// Adds an index register to an address, modulo 2^16.
pub fn index_absolute(base: u16, index: u8) -> (addr: u16)
    ensures
        addr == wrap16(base + index),
{
    base.wrapping_add(index as u16)
}

/// The address `offset` bytes away from `next`, modulo 2^16: where a taken
/// branch goes when the instruction after it stands at `next`.
pub fn branch_target(next: u16, offset: i8) -> (target: u16)
    ensures
        target == wrap16(next + offset),
{
    next.wrapping_add_signed(offset as i16)
}

#[allow(non_snake_case)]
impl CPU {
    /// A processor right after power-on.
    pub fn new() -> (cpu: CPU)
        ensures
            cpu@ == Machine::initial(),
    {
        CPU {
            pc: 0,
            s: RESET_STACK_POINTER,
            p: 0,
            a: 0,
            x: 0,
            y: 0,
            mem: Memory::new(),
            state: RunState::Running,
            cycles: 0,
        }
    }

    /// Explicit reset: back to the power-on state, running again.
    pub fn reset(&mut self)
        ensures
            final(self)@ == Machine::initial(),
    {
        *self = CPU::new();
    }

    /// Explicit stop: the dispatch loop halts; nothing else changes.
    pub fn halt(&mut self)
        ensures
            final(self)@ == old(self)@.halt(),
    {
        self.state = RunState::Halted;
    }

    /// The register file.
    pub fn registers(&self) -> (r: Registers)
        ensures
            r == registers_of(self@),
    {
        Registers { pc: self.pc, s: self.s, p: self.p, a: self.a, x: self.x, y: self.y }
    }

    /// The registers as they stand in a trace line:
    /// `A:00 X:00 Y:00 P:24 SP:FD`.
    pub fn print_registers(&self) -> (text: String)
        ensures
            text@ == registers_text(registers_of(self@)),
    {
        registers_to_text(self.registers())
    }

    /// Replaces the register file; memory, run state and cycle count stay.
    pub fn set_registers(&mut self, r: Registers)
        ensures
            final(self)@ == with_registers(old(self)@, r),
    {
        self.pc = r.pc;
        self.s = r.s;
        self.p = r.p;
        self.a = r.a;
        self.x = r.x;
        self.y = r.y;
    }

    /// Whether the dispatch loop runs or has halted.
    pub fn state(&self) -> (state: RunState)
        ensures
            state == self@.state,
    {
        self.state
    }

    /// Base cycles of all instructions executed so far.
    pub fn cycles(&self) -> (cycles: u64)
        ensures
            cycles == self@.cycles,
    {
        self.cycles
    }

    /// Reads memory at `addr`, through the mirrored windows.
    pub fn read(&self, addr: u16) -> (value: u8)
        ensures
            value == self@.read(addr),
    {
        self.mem.read(addr)
    }

    /// Writes memory at `addr`, through the mirrored windows.
    pub fn write(&mut self, addr: u16, value: u8)
        ensures
            final(self)@ == old(self)@.write(addr, value),
    {
        self.mem.write(addr, value);
    }

    /// Copies a program image to the window `start_addr`, starting at the
    /// window's origin. Registers are not touched.
    pub fn set_mem(&mut self, start_addr: MemMap, program_mem: &[u8]) -> (loaded: Result<
        (),
        LoadError,
    >)
        ensures
            loaded == load_check(start_addr.origin_spec(), program_mem@.len()),
            loaded is Ok ==> final(self)@ == (Machine {
                mem: load_image(old(self)@.mem, start_addr.origin_spec(), program_mem@),
                ..old(self)@
            }),
            loaded is Err ==> final(self)@ == old(self)@,
    {
        self.mem.load(start_addr.origin(), program_mem)
    }

    /// Loads a program image into the window `region` and points the
    /// processor at it: the program counter takes the window's origin and the
    /// status register its reset value `0x24`. A rejected image changes nothing.
    pub fn load_program(&mut self, region: MemMap, image: &[u8]) -> (result: Result<(), LoadError>)
        ensures
            result == load_check(region.origin_spec(), image@.len()),
            result is Ok ==> final(self)@ == loaded(old(self)@, region, image@),
            result is Err ==> final(self)@ == old(self)@,
    {
        match self.set_mem(region, image) {
            Ok(()) => {
                self.pc = region.origin();
                self.p = RESET_STATUS;
                Ok(())
            },
            Err(e) => Err(e),
        }
    }

    /// Loads the program of a ROM file, given as the file's bytes, into
    /// cartridge space at `0xC000`. A file without program bytes is malformed.
    pub fn test_load(&mut self, program: &[u8]) -> (result: Result<(), LoadError>)
        ensures
            result is Ok <==> program@.len() > ROM_HEADER_LEN,
            result is Err ==> result == Err::<(), LoadError>(LoadError::Malformed) && final(self)@
                == old(self)@,
            result is Ok ==> final(self)@ == loaded(
                old(self)@,
                MemMap::CartridgeSpace,
                program_of(program@),
            ),
    {
        self.load_program(MemMap::CartridgeSpace, program_bytes(program))
    }

    /// Whether Carry is set.
    pub fn is_carry_set(&self) -> (set: bool)
        ensures
            set == self@.flag(CARRY),
    {
        test_flag(self.p, CARRY)
    }

    /// Whether the flag `mask` is set.
    pub fn is_flag_set(&self, mask: u8) -> (set: bool)
        ensures
            set == self@.flag(mask),
    {
        test_flag(self.p, mask)
    }

    /// Sets or clears the flag `mask`.
    pub fn set_flag(&mut self, mask: u8, on: bool)
        ensures
            final(self)@ == old(self)@.assign(mask, on),
    {
        self.p = assign_flag(self.p, mask, on);
    }

    /// Sets Carry.
    pub fn set_carry_flag(&mut self)
        ensures
            final(self)@ == old(self)@.assign(CARRY, true),
    {
        self.set_flag(CARRY, true);
    }

    /// Clears Carry.
    pub fn clear_carry_flag(&mut self)
        ensures
            final(self)@ == old(self)@.assign(CARRY, false),
    {
        self.set_flag(CARRY, false);
    }

    /// Sets Zero.
    pub fn set_zero_flag(&mut self)
        ensures
            final(self)@ == old(self)@.assign(ZERO, true),
    {
        self.set_flag(ZERO, true);
    }

    /// Sets Negative.
    pub fn set_neg_flag(&mut self)
        ensures
            final(self)@ == old(self)@.assign(NEGATIVE, true),
    {
        self.set_flag(NEGATIVE, true);
    }

    /// Recomputes Zero and Negative from `value`.
    pub fn update_zero_negative(&mut self, value: u8)
        ensures
            final(self)@ == (Machine { p: with_zero_negative(old(self)@.p, value), ..old(self)@ }),
    {
        self.p = set_zero_negative(self.p, value);
    }

    /// Moves the program counter on by `n` bytes, modulo 2^16.
    pub fn advance(&mut self, n: u8)
        ensures
            final(self)@ == old(self)@.advance(n as int),
    {
        self.pc = self.pc.wrapping_add(n as u16);
    }

    /// Fetches the opcode under the program counter and moves past it.
    pub fn fetch_instr(&mut self) -> (instr: u8)
        ensures
            instr == old(self)@.opcode(),
            final(self)@ == old(self)@.advance(1),
    {
        let instr = self.mem.read(self.pc);
        self.advance(1);
        instr
    }

    /// Reads the little-endian word at `addr` and the address after it.
    pub fn read_word(&self, addr: u16) -> (w: u16)
        ensures
            w == self@.read_word(addr),
    {
        make_word(self.mem.read(addr), self.mem.read(addr.wrapping_add(1)))
    }

    /// Reads the little-endian word at `ptr` within page zero.
    pub fn read_word_zero_page(&self, ptr: u8) -> (w: u16)
        ensures
            w == self@.read_word_zero_page(ptr),
    {
        make_word(self.mem.read(ptr as u16), self.mem.read(ptr.wrapping_add(1) as u16))
    }

    /// Reads the little-endian word at `addr` without leaving its page.
    pub fn read_word_same_page(&self, addr: u16) -> (w: u16)
        ensures
            w == self@.read_word_same_page(addr),
    {
        let (lo, hi) = split_word(addr);
        make_word(self.mem.read(addr), self.mem.read(make_word(lo.wrapping_add(1), hi)))
    }

    /// Immediate mode: the operand is the next byte. Consumes one byte.
    pub fn read_immediate(&mut self) -> (value: u8)
        ensures
            Operand::Immediate(value) == old(self)@.operand(AddrMode::Immediate),
            final(self)@ == old(self)@.advance(1),
    {
        self.fetch_instr()
    }

    /// Zero-page mode: the next byte is an address in page zero. Consumes one byte.
    pub fn read_zeropage(&mut self) -> (addr: u8)
        ensures
            Operand::Address(addr as u16) == old(self)@.operand(AddrMode::ZeroPage),
            final(self)@ == old(self)@.advance(1),
    {
        self.fetch_instr()
    }

    /// Absolute mode: the next two bytes are a little-endian address.
    /// Consumes two bytes.
    pub fn read_absolute(&mut self) -> (addr: u16)
        ensures
            Operand::Address(addr) == old(self)@.operand(AddrMode::Absolute),
            final(self)@ == old(self)@.advance(2),
    {
        let addr = self.read_word(self.pc);
        self.advance(2);
        addr
    }

    /// Relative mode: the next byte is a signed offset. Consumes one byte.
    pub fn read_relative(&mut self) -> (offset: i8)
        ensures
            Operand::Relative(offset) == old(self)@.operand(AddrMode::Relative),
            final(self)@ == old(self)@.advance(1),
    {
        to_signed(self.fetch_instr())
    }

    /// What the resolver yields for `mode` when the operand bytes start at
    /// `at`. Nothing is consumed.
    pub fn operand_at(&self, at: u16, mode: AddrMode) -> (operand: Operand)
        ensures
            operand == self@.at(at).operand(mode),
    {
        let byte = self.mem.read(at);
        match mode {
            AddrMode::Implied => Operand::Implied,
            AddrMode::Accumulator => Operand::Accumulator,
            AddrMode::Immediate => Operand::Immediate(byte),
            AddrMode::ZeroPage => Operand::Address(byte as u16),
            AddrMode::ZeroPageX => Operand::Address(index_zero_page(byte, self.x) as u16),
            AddrMode::ZeroPageY => Operand::Address(index_zero_page(byte, self.y) as u16),
            AddrMode::Absolute => Operand::Address(self.read_word(at)),
            AddrMode::AbsoluteX => Operand::Address(index_absolute(self.read_word(at), self.x)),
            AddrMode::AbsoluteY => Operand::Address(index_absolute(self.read_word(at), self.y)),
            AddrMode::Indirect => Operand::Address(self.read_word_same_page(self.read_word(at))),
            AddrMode::IndexedIndirect => Operand::Address(
                self.read_word_zero_page(index_zero_page(byte, self.x)),
            ),
            AddrMode::IndirectIndexed => Operand::Address(
                index_absolute(self.read_word_zero_page(byte), self.y),
            ),
            AddrMode::Relative => Operand::Relative(to_signed(byte)),
        }
    }

    /// The addressing-mode resolver: yields the operand for `mode` and moves
    /// the program counter past the operand bytes of that mode.
    pub fn resolve_operand(&mut self, mode: AddrMode) -> (operand: Operand)
        ensures
            operand == old(self)@.operand(mode),
            final(self)@ == old(self)@.advance(operand_bytes(mode) as int),
    {
        let operand = self.operand_at(self.pc, mode);
        self.advance(mode.operand_bytes());
        operand
    }

    /// The byte that `operand` stands for.
    pub fn operand_value(&self, operand: Operand) -> (value: u8)
        ensures
            value == self@.value(operand),
    {
        match operand {
            Operand::Immediate(v) => v,
            Operand::Accumulator => self.a,
            Operand::Address(addr) => self.mem.read(addr),
            _ => 0,
        }
    }

    /// Stores `value` where `operand` points.
    pub fn store_operand(&mut self, operand: Operand, value: u8)
        ensures
            final(self)@ == old(self)@.store(operand, value),
    {
        match operand {
            Operand::Accumulator => {
                self.a = value;
            },
            Operand::Address(addr) => {
                self.mem.write(addr, value);
            },
            _ => {},
        }
    }

    /// Push: writes `value` at `0x0100 + S`, then decrements `S`, wrapping
    /// from `0x00` to `0xFF`.
    pub fn push_to_stack(&mut self, value: u8)
        ensures
            final(self)@ == old(self)@.push(value),
    {
        self.mem.write(STACK_PAGE + self.s as u16, value);
        self.s = self.s.wrapping_sub(1);
    }

    /// Pull: increments `S`, wrapping from `0xFF` to `0x00`, then reads the
    /// byte at `0x0100 + S`.
    pub fn pop_from_stack(&mut self) -> (value: u8)
        ensures
            final(self)@ == old(self)@.pop(),
            value == old(self)@.pop().top(),
    {
        self.s = self.s.wrapping_add(1);
        self.mem.read(STACK_PAGE + self.s as u16)
    }

    /// The optional diagnostic of the stack manager: whether the stack
    /// pointer stands at an end of the stack page, so that the next push or
    /// pull wraps around.
    pub fn stack_boundary(&self) -> (boundary: Option<StackBoundary>)
        ensures
            boundary == (if self@.s == 0x00 {
                Some(StackBoundary::Overflow)
            } else if self@.s == 0xFF {
                Some(StackBoundary::Underflow)
            } else {
                None
            }),
    {
        if self.s == 0x00 {
            Some(StackBoundary::Overflow)
        } else if self.s == 0xFF {
            Some(StackBoundary::Underflow)
        } else {
            None
        }
    }
}

} // verus!
