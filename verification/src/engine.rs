//! The dispatch loop: fetch, decode, resolve, execute, report.
//!
//! The loop has two states. It starts out running and halts on an opcode
//! without a table entry or on an explicit stop, of which an exhausted step
//! budget is one; only a reset makes it run again.
use crate::cpu::{registers_of, CPU};
use crate::disasm::disassembly;
use crate::machine::{wrap16, Machine, Operand, RunState};
use crate::table::{decode, decode_spec, lemma_table_entries, Entry, Mnemonic};
use crate::trace::{
    compare_line, format_record, format_spec, lines_agree, truncated, TraceMismatch, TraceModel,
    TraceRecord,
};
use vstd::prelude::*;

verus! {

/// Why a step executed no instruction.
#[derive(Clone, Copy, Debug, PartialEq, Eq, Structural)]
pub enum StepError {
    /// The opcode has no entry in the instruction table. The machine has
    /// moved past it and halted.
    UnmappedOpcode(u8),
    /// The machine had halted before.
    Halted,
}

/// Why a run came to its end.
#[derive(Clone, Copy, Debug, PartialEq, Eq, Structural)]
pub enum StopReason {
    /// The caller's condition held; the machine still runs.
    ConditionMet,
    /// The last step fetched an opcode without a table entry.
    UnmappedOpcode(u8),
    /// The machine had halted before the run began.
    Halted,
    /// The step budget ran out; the machine was halted for it.
    BudgetExhausted,
}

/// What a run did.
#[derive(Clone, Copy, Debug, PartialEq, Eq, Structural)]
pub struct RunReport {
    /// Number of steps taken.
    pub steps: u64,
    /// Why no further step was taken.
    pub reason: StopReason,
}

/// How far a conformance run came when no line differed.
#[derive(Clone, Copy, Debug, PartialEq, Eq, Structural)]
pub struct Conformance {
    /// Number of golden lines that were matched.
    pub matched: usize,
    /// What kept the machine from producing the next line, if golden lines
    /// were left over.
    pub stopped: Option<StepError>,
}

/// A predicate on the machine by which a caller ends a run.
pub trait StopCondition {
    /// Whether the run is to end at the machine `m`.
    spec fn holds(&self, m: Machine) -> bool;

    /// Evaluates the predicate on the processor.
    fn check(&self, cpu: &CPU) -> (stop: bool)
        ensures
            stop == self.holds(cpu@),
    ;
}

/// The condition that never holds.
pub struct Unconditional;

/// The condition that holds when the program counter stands at an address.
pub struct Breakpoint {
    /// The address to stop at.
    pub address: u16,
}

impl StopCondition for Unconditional {
    open spec fn holds(&self, m: Machine) -> bool {
        false
    }

    fn check(&self, cpu: &CPU) -> (stop: bool) {
        false
    }
}

impl StopCondition for Breakpoint {
    open spec fn holds(&self, m: Machine) -> bool {
        m.pc == self.address
    }

    fn check(&self, cpu: &CPU) -> (stop: bool) {
        cpu.pc == self.address
    }
}

/// Why a step of the machine `m`, which is not steppable, executes nothing.
pub open spec fn step_error(m: Machine) -> StepError {
    if m.running() {
        StepError::UnmappedOpcode(m.opcode())
    } else {
        StepError::Halted
    }
}

/// Why a run of `steps` steps that began at `start` took no further step.
pub open spec fn stop_reason<C: StopCondition>(
    start: Machine,
    steps: nat,
    condition: &C,
) -> StopReason {
    let last = start.steps(steps);
    if !last.running() {
        if steps > 0 {
            StopReason::UnmappedOpcode(start.steps((steps - 1) as nat).opcode())
        } else {
            StopReason::Halted
        }
    } else if condition.holds(last) {
        StopReason::ConditionMet
    } else {
        StopReason::BudgetExhausted
    }
}

impl Machine {
    /// The record of the instruction `entry` with opcode `opcode`, for a
    /// machine whose program counter stands behind the opcode.
    pub open spec fn record(self, opcode: u8, entry: Entry) -> TraceModel {
        let address = wrap16(self.pc - 1);
        TraceModel {
            address,
            bytes: seq![opcode] + self.bytes_at(self.pc, entry.operands as nat),
            text: disassembly(self, entry.mnemonic, entry.mode),
            registers: registers_of(self.at(address)),
        }
    }

    /// The record of the instruction that the next step executes.
    pub open spec fn trace_model(self) -> TraceModel {
        self.advance(1).record(self.opcode(), decode_spec(self.opcode())->0)
    }

    /// The trace line of the instruction that the next step executes.
    pub open spec fn trace_line(self) -> Seq<char> {
        format_spec(self.trace_model())
    }

    /// Whether the next step produces a line that agrees with `golden`.
    pub open spec fn conforms(self, golden: Seq<char>) -> bool {
        self.steppable() && lines_agree(self.trace_line(), golden)
    }
}

#[allow(non_snake_case)]
impl CPU {
    /// Runs the handler of `mnemonic` on `operand`.
    pub fn execute(&mut self, mnemonic: Mnemonic, operand: Operand)
        ensures
            final(self)@ == old(self)@.execute(mnemonic, operand),
    {
        reveal(Machine::execute);
        match mnemonic {
            Mnemonic::Adc => {
                let value = self.operand_value(operand);
                self.ADC(value);
            },
            Mnemonic::And => {
                let value = self.operand_value(operand);
                self.AND(value);
            },
            Mnemonic::Asl => self.ASL(operand),
            Mnemonic::Bcc => self.BCC(operand.offset()),
            Mnemonic::Bcs => self.BCS(operand.offset()),
            Mnemonic::Beq => self.BEQ(operand.offset()),
            Mnemonic::Bit => {
                let value = self.operand_value(operand);
                self.BIT(value);
            },
            Mnemonic::Bmi => self.BMI(operand.offset()),
            Mnemonic::Bne => self.BNE(operand.offset()),
            Mnemonic::Bpl => self.BPL(operand.offset()),
            Mnemonic::Brk => self.BRK(),
            Mnemonic::Bvc => self.BVC(operand.offset()),
            Mnemonic::Bvs => self.BVS(operand.offset()),
            Mnemonic::Clc => self.CLC(),
            Mnemonic::Cld => self.CLD(),
            Mnemonic::Cli => self.CLI(),
            Mnemonic::Clv => self.CLV(),
            Mnemonic::Cmp => {
                let value = self.operand_value(operand);
                self.CMP(value);
            },
            Mnemonic::Cpx => {
                let value = self.operand_value(operand);
                self.CPX(value);
            },
            Mnemonic::Cpy => {
                let value = self.operand_value(operand);
                self.CPY(value);
            },
            Mnemonic::Dec => self.DEC(operand.address()),
            Mnemonic::Dex => self.DEX(),
            Mnemonic::Dey => self.DEY(),
            Mnemonic::Eor => {
                let value = self.operand_value(operand);
                self.EOR(value);
            },
            Mnemonic::Inc => self.INC(operand.address()),
            Mnemonic::Inx => self.INX(),
            Mnemonic::Iny => self.INY(),
            Mnemonic::Jmp => self.JMP(operand.address()),
            Mnemonic::Jsr => self.JSR(operand.address()),
            Mnemonic::Lda => {
                let value = self.operand_value(operand);
                self.LDA(value);
            },
            Mnemonic::Ldx => {
                let value = self.operand_value(operand);
                self.LDX(value);
            },
            Mnemonic::Ldy => {
                let value = self.operand_value(operand);
                self.LDY(value);
            },
            Mnemonic::Lsr => self.LSR(operand),
            Mnemonic::Nop => self.NOP(),
            Mnemonic::Ora => {
                let value = self.operand_value(operand);
                self.ORA(value);
            },
            Mnemonic::Pha => self.PHA(),
            Mnemonic::Php => self.PHP(),
            Mnemonic::Pla => self.PLA(),
            Mnemonic::Plp => self.PLP(),
            Mnemonic::Rol => self.ROL(operand),
            Mnemonic::Ror => self.ROR(operand),
            Mnemonic::Rti => self.RTI(),
            Mnemonic::Rts => self.RTS(),
            Mnemonic::Sbc => {
                let value = self.operand_value(operand);
                self.SBC(value);
            },
            Mnemonic::Sec => self.SEC(),
            Mnemonic::Sed => self.SED(),
            Mnemonic::Sei => self.SEI(),
            Mnemonic::Sta => self.STA(operand.address()),
            Mnemonic::Stx => self.STX(operand.address()),
            Mnemonic::Sty => self.STY(operand.address()),
            Mnemonic::Tax => self.TAX(),
            Mnemonic::Tay => self.TAY(),
            Mnemonic::Tsx => self.TSX(),
            Mnemonic::Txa => self.TXA(),
            Mnemonic::Txs => self.TXS(),
            Mnemonic::Tya => self.TYA(),
        }
    }

    /// Reads the `n` bytes that start at `at`.
    pub fn bytes_at(&self, at: u16, n: u8) -> (bytes: Vec<u8>)
        ensures
            bytes@ == self@.bytes_at(at, n as nat),
    {
        let mut bytes: Vec<u8> = Vec::new();
        let mut i: u8 = 0;
        while i < n
            invariant
                i <= n,
                bytes@ == self@.bytes_at(at, i as nat),
            decreases n - i,
        {
            bytes.push(self.mem.read(at.wrapping_add(i as u16)));
            assert(bytes@ =~= self@.bytes_at(at, (i + 1) as nat));
            i += 1;
        }
        bytes
    }

    /// Decodes and executes the instruction whose opcode `instr` was just
    /// fetched, and reports it. An opcode without a table entry halts the
    /// machine and is handed back. The run state is not looked at: that is
    /// the business of [`CPU::step`].
    pub fn execute_instr(&mut self, instr: u8) -> (result: Result<TraceRecord, StepError>)
        ensures
            final(self)@ == old(self)@.dispatch(instr),
            match result {
                Ok(record) => decode_spec(instr) matches Some(entry) && record@ == old(
                    self,
                )@.record(instr, entry),
                Err(error) => decode_spec(instr) is None && error == StepError::UnmappedOpcode(
                    instr,
                ),
            },
    {
        match decode(instr) {
            None => {
                self.halt();
                Err(StepError::UnmappedOpcode(instr))
            },
            Some(entry) => {
                proof {
                    lemma_table_entries(instr);
                }
                let address = self.pc.wrapping_sub(1);
                let mut registers = self.registers();
                registers.pc = address;
                let mut bytes: Vec<u8> = Vec::new();
                bytes.push(instr);
                let mut operands = self.bytes_at(self.pc, entry.operands);
                bytes.append(&mut operands);
                let text = self.disassemble(self.pc, entry.mnemonic, entry.mode);
                let record = TraceRecord { address, bytes, text, registers };
                assert(record@ =~= old(self)@.record(instr, entry)) by {
                    assert(old(self)@.at(old(self)@.pc) =~= old(self)@);
                    assert(record@.bytes =~= old(self)@.record(instr, entry).bytes);
                }
                let operand = self.resolve_operand(entry.mode);
                self.execute(entry.mnemonic, operand);
                self.cycles = self.cycles.wrapping_add(entry.cycles as u64);
                Ok(record)
            },
        }
    }

    /// Executes exactly one instruction and reports it. A halted machine
    /// executes nothing and stays as it is.
    pub fn step(&mut self) -> (result: Result<TraceRecord, StepError>)
        ensures
            final(self)@ == old(self)@.step(),
            match result {
                Ok(record) => old(self)@.steppable() && record@ == old(self)@.trace_model(),
                Err(error) => !old(self)@.steppable() && error == step_error(old(self)@),
            },
    {
        match self.state {
            RunState::Halted => Err(StepError::Halted),
            RunState::Running => {
                let instr = self.fetch_instr();
                self.execute_instr(instr)
            },
        }
    }

    /// Steps until the machine has halted, `condition` holds, or
    /// `max_steps` steps were taken. The condition is looked at before every
    /// step, the first included. A budget that runs out while the machine
    /// still runs and the condition does not hold is an explicit stop: the
    /// machine is halted.
    pub fn run_until<C: StopCondition>(&mut self, condition: &C, max_steps: u64) -> (report:
        RunReport)
        ensures
            report.steps <= max_steps,
            forall|k: nat|
                k < report.steps ==> (#[trigger] old(self)@.steps(k)).running() && !condition.holds(
                    old(self)@.steps(k),
                ),
            report.reason == stop_reason(old(self)@, report.steps as nat, condition),
            report.reason == StopReason::BudgetExhausted ==> report.steps == max_steps,
            final(self)@ == (if report.reason == StopReason::BudgetExhausted {
                old(self)@.steps(report.steps as nat).halt()
            } else {
                old(self)@.steps(report.steps as nat)
            }),
    {
        let mut steps: u64 = 0;
        let mut fault: Option<u8> = None;
        loop
            invariant
                steps <= max_steps,
                self@ == old(self)@.steps(steps as nat),
                forall|k: nat|
                    k < steps ==> (#[trigger] old(self)@.steps(k)).running() && !condition.holds(
                        old(self)@.steps(k),
                    ),
                fault matches Some(opcode) ==> steps > 0 && opcode == old(self)@.steps(
                    (steps - 1) as nat,
                ).opcode(),
                fault is Some <==> steps > 0 && !self@.running(),
            decreases max_steps - steps,
        {
            match self.state {
                RunState::Halted => {
                    let reason = match fault {
                        Some(opcode) => StopReason::UnmappedOpcode(opcode),
                        None => StopReason::Halted,
                    };
                    return RunReport { steps, reason };
                },
                RunState::Running => {},
            }
            if condition.check(self) {
                return RunReport { steps, reason: StopReason::ConditionMet };
            }
            if steps == max_steps {
                self.halt();
                return RunReport { steps, reason: StopReason::BudgetExhausted };
            }
            match self.step() {
                Ok(_) => {
                    proof {
                        lemma_step_keeps_running(old(self)@.steps(steps as nat));
                    }
                },
                Err(StepError::UnmappedOpcode(opcode)) => {
                    fault = Some(opcode);
                },
                Err(StepError::Halted) => {},
            }
            steps += 1;
        }
    }

    /// The dispatch loop: steps until the machine halts, at the latest when
    /// `max_steps` steps were taken. The machine is halted when it returns.
    pub fn run(&mut self, max_steps: u64) -> (report: RunReport)
        ensures
            report.steps <= max_steps,
            forall|k: nat| k < report.steps ==> (#[trigger] old(self)@.steps(k)).running(),
            report.reason == stop_reason(old(self)@, report.steps as nat, &Unconditional),
            report.reason == StopReason::BudgetExhausted ==> report.steps == max_steps,
            final(self)@ == old(self)@.steps(report.steps as nat).halt(),
            !final(self)@.running(),
    {
        let report = self.run_until(&Unconditional, max_steps);
        assert(self@ =~= old(self)@.steps(report.steps as nat).halt());
        report
    }

    /// Conformance run: for each golden line, in order, executes one
    /// instruction and compares its trace line with the golden one, both cut
    /// to 73 columns. The first line that differs ends the run and is
    /// reported with both lines and its index; the instruction of that line
    /// has been executed. The run also ends, without a finding, at an
    /// instruction that cannot be executed.
    pub fn test_run(&mut self, log: &Vec<String>) -> (result: Result<Conformance, TraceMismatch>)
        ensures
            match result {
                Ok(report) => {
                    &&& report.matched <= log@.len()
                    &&& forall|i: int|
                        0 <= i < report.matched ==> (#[trigger] old(self)@.steps(i as nat)).conforms(
                            log@[i]@,
                        )
                    &&& match report.stopped {
                        None => report.matched == log@.len() && final(self)@ == old(self)@.steps(
                            report.matched as nat,
                        ),
                        Some(error) => {
                            &&& report.matched < log@.len()
                            &&& !old(self)@.steps(report.matched as nat).steppable()
                            &&& error == step_error(old(self)@.steps(report.matched as nat))
                            &&& final(self)@ == old(self)@.steps((report.matched + 1) as nat)
                        },
                    }
                },
                Err(mismatch) => {
                    let at = old(self)@.steps(mismatch.index as nat);
                    &&& mismatch.index < log@.len()
                    &&& forall|i: int|
                        0 <= i < mismatch.index ==> (#[trigger] old(self)@.steps(i as nat)).conforms(
                            log@[i]@,
                        )
                    &&& at.steppable()
                    &&& !lines_agree(at.trace_line(), log@[mismatch.index as int]@)
                    &&& mismatch.expected@ == truncated(log@[mismatch.index as int]@)
                    &&& mismatch.actual@ == truncated(at.trace_line())
                    &&& final(self)@ == old(self)@.steps((mismatch.index + 1) as nat)
                },
            },
    {
        let mut i: usize = 0;
        while i < log.len()
            invariant
                i <= log@.len(),
                self@ == old(self)@.steps(i as nat),
                forall|j: int|
                    0 <= j < i ==> (#[trigger] old(self)@.steps(j as nat)).conforms(log@[j]@),
            decreases log@.len() - i,
        {
            match self.step() {
                Err(error) => {
                    return Ok(Conformance { matched: i, stopped: Some(error) });
                },
                Ok(record) => {
                    let line = format_record(&record);
                    match compare_line(line.as_str(), log[i].as_str(), i) {
                        Err(mismatch) => {
                            return Err(mismatch);
                        },
                        Ok(()) => {},
                    }
                },
            }
            i += 1;
        }
        Ok(Conformance { matched: i, stopped: None })
    }
}

/// No instruction stops the dispatch loop: after a step that executed an
/// instruction the machine still runs.
pub proof fn lemma_step_keeps_running(m: Machine)
    requires
        m.steppable(),
    ensures
        m.step().running(),
{
    reveal(Machine::execute);
}

} // verus!
