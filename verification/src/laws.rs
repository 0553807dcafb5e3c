//! Laws of the machine: what holds of every state, proved from the
//! definitions that the contracts use.
use crate::disasm::{disassembly, lemma_mnemonic_width, operand_text};
use crate::machine::{signed, wrap16, wrap8, Machine, Operand};
use crate::memory::{canonical, read_cell, region_of, write_cell, MemMap, MEMORY_SIZE};
use crate::status::CARRY;
use crate::table::{decode_spec, lemma_table_entries, row, AddrMode, Mnemonic};
use crate::trace::{lemma_line_width, TEXT_COLUMNS, TRACE_COLUMNS};
use vstd::prelude::*;

verus! {

/// Whether `mnemonic` may set the program counter: the branches, the jumps,
/// the returns and `BRK`.
pub open spec fn moves_pc(mnemonic: Mnemonic) -> bool {
    match mnemonic {
        Mnemonic::Bcc
        | Mnemonic::Bcs
        | Mnemonic::Beq
        | Mnemonic::Bmi
        | Mnemonic::Bne
        | Mnemonic::Bpl
        | Mnemonic::Bvc
        | Mnemonic::Bvs
        | Mnemonic::Jmp
        | Mnemonic::Jsr
        | Mnemonic::Rts
        | Mnemonic::Rti
        | Mnemonic::Brk => true,
        _ => false,
    }
}

/// An address and its canonical address name the same cell, for reads and
/// for writes; a canonical address is its own canonical address and lies
/// in the same window.
pub proof fn law_mirrors_share_cells(mem: Seq<u8>, addr: u16, value: u8)
    ensures
        read_cell(mem, addr) == read_cell(mem, canonical(addr)),
        write_cell(mem, addr, value) == write_cell(mem, canonical(addr), value),
        canonical(canonical(addr)) == canonical(addr),
        region_of(canonical(addr)) == region_of(addr),
{
}

/// The work RAM repeats every 2 KB up to `0x1FFF`, the eight registers of
/// the second window every 8 bytes up to `0x3FFF`; from `0x4000` on every
/// address is its own cell.
pub proof fn law_mirror_periods(addr: u16)
    ensures
        addr < 0x1800 ==> canonical((addr + 0x0800) as u16) == canonical(addr),
        0x2000 <= addr < 0x3FF8 ==> canonical((addr + 8) as u16) == canonical(addr),
        region_of(addr) == MemMap::InternalRam ==> canonical(addr) < 0x0800,
        region_of(addr) == MemMap::PpuRegisters ==> 0x2000 <= canonical(addr) < 0x2008,
        addr >= 0x4000 ==> canonical(addr) == addr,
{
}

/// A read after a write sees the written value through every mirror of
/// the written address, and the old value everywhere else.
pub proof fn law_read_after_write(mem: Seq<u8>, written: u16, value: u8, addr: u16)
    requires
        mem.len() == MEMORY_SIZE,
    ensures
        write_cell(mem, written, value).len() == MEMORY_SIZE,
        read_cell(write_cell(mem, written, value), addr) == (if canonical(addr) == canonical(
            written,
        ) {
            value
        } else {
            read_cell(mem, addr)
        }),
{
}

/// A pull gives back what the push before it stored and restores the stack
/// pointer, at every stack pointer: the stack wraps within its page.
pub proof fn law_push_then_pull(m: Machine, value: u8)
    requires
        m.wf(),
    ensures
        m.push(value).pop().top() == value,
        m.push(value).pop().s == m.s,
        m.push(value).pc == m.pc,
        m.push(value).stack_address() != m.stack_address(),
{
}

/// `JSR` followed by `RTS` continues at the address right after the `JSR`
/// instruction and restores the stack pointer, for every target and every
/// stack pointer.
pub proof fn law_jsr_then_rts(m: Machine, target: u16)
    requires
        m.wf(),
    ensures
        m.jsr(target).pc == target,
        m.jsr(target).s == wrap8(m.s - 2),
        m.jsr(target).rts().pc == m.pc,
        m.jsr(target).rts().s == m.s,
{
    let pushed_high = m.push(crate::machine::high_byte(wrap16(m.pc - 1)));
    law_push_then_pull(m, crate::machine::high_byte(wrap16(m.pc - 1)));
    law_push_then_pull(pushed_high, crate::machine::low_byte(wrap16(m.pc - 1)));
}

/// A step on the opcode `0x20` is `JSR` on the word behind the opcode, run
/// with the program counter three bytes on.
pub proof fn law_jsr_step(m: Machine)
    requires
        m.running(),
        m.opcode() == 0x20,
    ensures
        m.step() == (Machine {
            cycles: m.cycles.wrapping_add(6),
            ..m.advance(3).jsr(m.read_word(wrap16(m.pc + 1)))
        }),
{
    assert(decode_spec(0x20u8) == Some(row(Mnemonic::Jsr, AddrMode::Absolute, 6))) by {
        reveal(decode_spec);
    }
    let fetched = m.advance(1);
    let target = m.read_word(wrap16(m.pc + 1));
    assert(fetched.operand(AddrMode::Absolute) == Operand::Address(target));
    assert(fetched.advance(2) == m.advance(3));
    assert(m.advance(3).execute(Mnemonic::Jsr, Operand::Address(target)) == m.advance(3).jsr(
        target,
    )) by {
        reveal(Machine::execute);
    }
}

/// A step on the opcode `0x60` is `RTS`.
pub proof fn law_rts_step(m: Machine)
    requires
        m.running(),
        m.opcode() == 0x60,
    ensures
        m.step() == (Machine { cycles: m.cycles.wrapping_add(6), ..m.advance(1).rts() }),
{
    assert(decode_spec(0x60u8) == Some(row(Mnemonic::Rts, AddrMode::Implied, 6))) by {
        reveal(decode_spec);
    }
    let fetched = m.advance(1);
    assert(fetched.operand(AddrMode::Implied) == Operand::Implied);
    assert(fetched.advance(0) == fetched);
    assert(fetched.execute(Mnemonic::Rts, Operand::Implied) == fetched.rts()) by {
        reveal(Machine::execute);
    }
}

/// Where `RTS` returns to depends on the stack pointer and the memory only.
proof fn lemma_rts_reads_the_stack(a: Machine, b: Machine)
    requires
        a.s == b.s,
        a.mem == b.mem,
    ensures
        a.rts().pc == b.rts().pc,
        a.rts().s == b.rts().s,
{
}

/// A `JSR` instruction followed immediately by an `RTS` at its target
/// brings the program counter to the address right after the `JSR`
/// instruction, three bytes on, and the stack pointer back to where it was.
/// The `RTS` has to stand at the target once the return address is pushed.
pub proof fn law_call_and_return(m: Machine)
    requires
        m.wf(),
        m.running(),
        m.opcode() == 0x20,
        m.step().opcode() == 0x60,
    ensures
        m.step().pc == m.read_word(wrap16(m.pc + 1)),
        m.step().step().pc == wrap16(m.pc + 3),
        m.step().step().s == m.s,
{
    let target = m.read_word(wrap16(m.pc + 1));
    let called = m.step();
    law_jsr_step(m);
    law_jsr_then_rts(m.advance(3), target);
    law_rts_step(called);
    lemma_rts_reads_the_stack(called.advance(1), m.advance(3).jsr(target));
}

/// A handler that is neither a branch, a jump, a return nor `BRK` leaves the
/// program counter alone, and no handler stops the machine.
pub proof fn law_handlers_keep_pc(m: Machine, mnemonic: Mnemonic, operand: Operand)
    ensures
        !moves_pc(mnemonic) ==> m.execute(mnemonic, operand).pc == m.pc,
        m.execute(mnemonic, operand).state == m.state,
        m.execute(mnemonic, operand).cycles == m.cycles,
{
    reveal(Machine::execute);
}

/// An instruction in immediate mode consumes exactly one operand byte: the
/// step moves the program counter on by two.
pub proof fn law_immediate_advances_by_two(m: Machine)
    requires
        m.running(),
        decode_spec(m.opcode()) matches Some(entry) && entry.mode == AddrMode::Immediate,
    ensures
        decode_spec(m.opcode())->0.operands == 1,
        m.step().pc == wrap16(m.pc + 2),
        m.trace_model().bytes.len() == 2,
{
    let entry = decode_spec(m.opcode())->0;
    lemma_table_entries(m.opcode());
    assert(!moves_pc(entry.mnemonic)) by {
        reveal(decode_spec);
    }
    let fetched = m.advance(1);
    law_handlers_keep_pc(fetched.advance(1), entry.mnemonic, fetched.operand(entry.mode));
}

/// A step moves the program counter past the opcode and its operand bytes,
/// unless the instruction is a branch, a jump, a return or `BRK`.
pub proof fn law_step_advances_by_size(m: Machine)
    requires
        m.steppable(),
        !moves_pc(decode_spec(m.opcode())->0.mnemonic),
    ensures
        m.step().pc == wrap16(m.pc + 1 + decode_spec(m.opcode())->0.operands),
{
    let entry = decode_spec(m.opcode())->0;
    lemma_table_entries(m.opcode());
    let fetched = m.advance(1);
    law_handlers_keep_pc(
        fetched.advance(entry.operands as int),
        entry.mnemonic,
        fetched.operand(entry.mode),
    );
}

/// `BCS` branches if and only if Carry is set when it executes. The target
/// of the branch is the address of the next instruction plus the signed
/// offset, modulo 2^16; no register but the program counter changes.
pub proof fn law_bcs_branches_on_carry(m: Machine)
    requires
        m.running(),
        m.opcode() == 0xB0,
    ensures
        m.step().pc == (if m.flag(CARRY) {
            wrap16(m.pc + 2 + signed(m.read(wrap16(m.pc + 1))))
        } else {
            wrap16(m.pc + 2)
        }),
        m.step().p == m.p,
        m.step().s == m.s,
        m.step().a == m.a,
        m.step().x == m.x,
        m.step().y == m.y,
        m.step().mem == m.mem,
{
    assert(decode_spec(0xB0u8) == Some(row(Mnemonic::Bcs, AddrMode::Relative, 2))) by {
        reveal(decode_spec);
    }
    let fetched = m.advance(1);
    let offset = signed(m.read(wrap16(m.pc + 1))) as i8;
    assert(fetched.operand(AddrMode::Relative) == Operand::Relative(offset));
    let resolved = fetched.advance(1);
    assert(resolved.pc == wrap16(m.pc + 2));
    assert(resolved.execute(Mnemonic::Bcs, Operand::Relative(offset)) == resolved.bcs(offset)) by {
        reveal(Machine::execute);
    }
}

/// A halted machine stays as it is, whatever number of steps is asked of it.
pub proof fn law_halted_is_terminal(m: Machine, n: nat)
    requires
        !m.running(),
    ensures
        m.steps(n) == m,
    decreases n,
{
    if n > 0 {
        law_halted_is_terminal(m, (n - 1) as nat);
    }
}

/// A step leaves the memory with all of its cells.
pub proof fn law_step_keeps_memory_size(m: Machine)
    requires
        m.wf(),
    ensures
        m.step().wf(),
{
    reveal(Machine::execute);
}

/// The disassembly of every table entry fits its field of 32 columns.
pub proof fn law_disassembly_fits(m: Machine, opcode: u8)
    requires
        decode_spec(opcode) is Some,
    ensures
        disassembly(m, decode_spec(opcode)->0.mnemonic, decode_spec(opcode)->0.mode).len()
            <= TEXT_COLUMNS,
{
    let entry = decode_spec(opcode)->0;
    lemma_mnemonic_width(entry.mnemonic);
    reveal_strlit(" ");
    reveal_strlit("A");
    reveal_strlit("#$");
    reveal_strlit("$");
    reveal_strlit(" = ");
    reveal_strlit(",X @ ");
    reveal_strlit(",Y @ ");
    reveal_strlit("($");
    reveal_strlit(") = ");
    reveal_strlit(",X) @ ");
    reveal_strlit("),Y = ");
    reveal_strlit(" @ ");
    assert(operand_text(m, entry.mnemonic, entry.mode).len() <= 26);
}

/// Every line that the engine produces has exactly 73 columns, so cutting
/// it to 73 columns changes nothing.
pub proof fn law_trace_line_width(m: Machine)
    requires
        m.steppable(),
    ensures
        m.trace_line().len() == TRACE_COLUMNS,
        crate::trace::truncated(m.trace_line()) == m.trace_line(),
{
    lemma_table_entries(m.opcode());
    law_disassembly_fits(m.advance(1), m.opcode());
    lemma_line_width(m.trace_model());
}

} // verus!
