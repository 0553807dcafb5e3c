//! The trace formatter and the conformance verifier.
//!
//! A trace line has a fixed layout of 73 columns:
//!
//! ```text
//! C000  4C F5 C5  JMP $C5F5                       A:00 X:00 Y:00 P:24 SP:FD
//! ```
//!
//! four hex digits of address, two spaces, the instruction bytes in a field
//! of 8 columns, two spaces, the disassembly in a field of 32 columns, and
//! the registers as they were before the instruction ran.
use crate::cpu::Registers;
use crate::machine::{high_byte, low_byte};
use vstd::prelude::*;
use vstd::string::*;

verus! {

/// Number of columns to which lines are cut before they are compared.
pub const TRACE_COLUMNS: usize = 73;

/// Width of the field that holds the instruction bytes.
pub const BYTES_COLUMNS: usize = 8;

/// Width of the field that holds the disassembly.
pub const TEXT_COLUMNS: usize = 32;

/// What the engine reports of one executed instruction.
#[derive(Debug, PartialEq, Eq)]
pub struct TraceRecord {
    /// Address of the opcode.
    pub address: u16,
    /// The opcode and its operand bytes, as they stand in memory.
    pub bytes: Vec<u8>,
    /// Mnemonic and operand, disassembled.
    pub text: String,
    /// The registers before the instruction ran.
    pub registers: Registers,
}

/// A trace record as plain values.
pub struct TraceModel {
    /// Address of the opcode.
    pub address: u16,
    /// The opcode and its operand bytes.
    pub bytes: Seq<u8>,
    /// Mnemonic and operand, disassembled.
    pub text: Seq<char>,
    /// The registers before the instruction ran.
    pub registers: Registers,
}

impl View for TraceRecord {
    type V = TraceModel;

    open spec fn view(&self) -> TraceModel {
        TraceModel {
            address: self.address,
            bytes: self.bytes@,
            text: self.text@,
            registers: self.registers,
        }
    }
}

/// The first line on which a produced trace and the golden trace differ.
#[derive(Debug, PartialEq, Eq)]
pub struct TraceMismatch {
    /// The golden line, cut to 73 columns.
    pub expected: String,
    /// The produced line, cut to 73 columns.
    pub actual: String,
    /// Index of the line, counted from zero.
    pub index: usize,
}

/// The upper-case hex digit for `n`, which is below 16.
pub open spec fn hex_digit(n: int) -> char {
    "0123456789ABCDEF"@[n]
}

/// Two hex digits for a byte.
pub open spec fn hex2(v: u8) -> Seq<char> {
    seq![hex_digit(v as int / 16), hex_digit(v as int % 16)]
}

/// Four hex digits for a word.
pub open spec fn hex4(v: u16) -> Seq<char> {
    hex2(high_byte(v)) + hex2(low_byte(v))
}

/// `n` spaces.
pub open spec fn spaces(n: nat) -> Seq<char> {
    Seq::new(n, |i: int| ' ')
}

/// `s` left-justified in a field of `width` columns. A text that is wider
/// than the field is not cut.
pub open spec fn pad_right(s: Seq<char>, width: nat) -> Seq<char> {
    if s.len() >= width {
        s
    } else {
        s + spaces((width - s.len()) as nat)
    }
}

/// The bytes as two hex digits each, with one space between neighbours.
pub open spec fn bytes_text(bytes: Seq<u8>) -> Seq<char>
    decreases bytes.len(),
{
    if bytes.len() == 0 {
        Seq::empty()
    } else if bytes.len() == 1 {
        hex2(bytes[0])
    } else {
        bytes_text(bytes.drop_last()) + " "@ + hex2(bytes.last())
    }
}

/// The register part of a trace line.
pub open spec fn registers_text(r: Registers) -> Seq<char> {
    "A:"@ + hex2(r.a) + " X:"@ + hex2(r.x) + " Y:"@ + hex2(r.y) + " P:"@ + hex2(r.p) + " SP:"@
        + hex2(r.s)
}

/// The trace line of a record.
pub open spec fn format_spec(record: TraceModel) -> Seq<char> {
    hex4(record.address) + "  "@ + pad_right(bytes_text(record.bytes), BYTES_COLUMNS as nat) + "  "@
        + pad_right(record.text, TEXT_COLUMNS as nat) + registers_text(record.registers)
}

/// `line` cut to its first 73 columns.
pub open spec fn truncated(line: Seq<char>) -> Seq<char> {
    if line.len() > TRACE_COLUMNS {
        line.subrange(0, TRACE_COLUMNS as int)
    } else {
        line
    }
}

/// Two lines agree when they are equal after both were cut to 73 columns.
pub open spec fn lines_agree(produced: Seq<char>, golden: Seq<char>) -> bool {
    truncated(produced) == truncated(golden)
}

/// The hex digit for `n` as a string of one character.
fn hex_digit_str(n: u8) -> (digit: &'static str)
    requires
        n < 16,
    ensures
        digit@ == seq![hex_digit(n as int)],
{
    let digits = "0123456789ABCDEF";
    proof {
        reveal_strlit("0123456789ABCDEF");
    }
    let digit = digits.substring_ascii(n as usize, n as usize + 1);
    assert(digit@ =~= seq![hex_digit(n as int)]);
    digit
}

/// Appends two hex digits for `v` to `line`.
pub fn push_hex2(line: &mut String, v: u8)
    ensures
        final(line)@ == old(line)@ + hex2(v),
{
    line.append(hex_digit_str(v / 16));
    line.append(hex_digit_str(v % 16));
    assert(line@ =~= old(line)@ + hex2(v));
}

/// Appends four hex digits for `v` to `line`.
pub fn push_hex4(line: &mut String, v: u16)
    ensures
        final(line)@ == old(line)@ + hex4(v),
{
    push_hex2(line, (v / 0x100) as u8);
    push_hex2(line, (v % 0x100) as u8);
    assert(line@ =~= old(line)@ + hex4(v));
}

/// Appends `field`, left-justified in `width` columns, to `line`.
pub fn push_padded(line: &mut String, field: &str, width: usize)
    ensures
        final(line)@ == old(line)@ + pad_right(field@, width as nat),
{
    line.append(field);
    let mut n = field.unicode_len();
    proof {
        reveal_strlit(" ");
        assert(line@ =~= old(line)@ + field@ + spaces(0));
    }
    while n < width
        invariant
            field@.len() <= n,
            n <= width || n == field@.len(),
            line@ == old(line)@ + field@ + spaces((n - field@.len()) as nat),
        decreases width - n,
    {
        line.append(" ");
        assert(line@ =~= old(line)@ + field@ + spaces((n + 1 - field@.len()) as nat)) by {
            reveal_strlit(" ");
        }
        n += 1;
    }
    assert(line@ =~= old(line)@ + pad_right(field@, width as nat));
}

/// Writes the bytes as hex digits with single spaces between them.
pub fn bytes_to_text(bytes: &Vec<u8>) -> (text: String)
    ensures
        text@ == bytes_text(bytes@),
{
    let mut text = String::new();
    let mut i: usize = 0;
    while i < bytes.len()
        invariant
            i <= bytes@.len(),
            text@ == bytes_text(bytes@.take(i as int)),
        decreases bytes@.len() - i,
    {
        assert(bytes@.take(i + 1).drop_last() =~= bytes@.take(i as int));
        if i > 0 {
            text.append(" ");
        }
        push_hex2(&mut text, bytes[i]);
        assert(text@ =~= bytes_text(bytes@.take(i + 1)));
        i += 1;
    }
    assert(bytes@.take(i as int) =~= bytes@);
    text
}

/// Writes the register part of a trace line.
pub fn registers_to_text(r: Registers) -> (text: String)
    ensures
        text@ == registers_text(r),
{
    let mut text = String::new();
    text.append("A:");
    push_hex2(&mut text, r.a);
    text.append(" X:");
    push_hex2(&mut text, r.x);
    text.append(" Y:");
    push_hex2(&mut text, r.y);
    text.append(" P:");
    push_hex2(&mut text, r.p);
    text.append(" SP:");
    push_hex2(&mut text, r.s);
    assert(text@ =~= registers_text(r));
    text
}

/// The trace formatter: the line of one record. It reads nothing but the record.
pub fn format_record(record: &TraceRecord) -> (line: String)
    ensures
        line@ == format_spec(record@),
{
    let mut line = String::new();
    push_hex4(&mut line, record.address);
    line.append("  ");
    let bytes = bytes_to_text(&record.bytes);
    push_padded(&mut line, bytes.as_str(), BYTES_COLUMNS);
    line.append("  ");
    push_padded(&mut line, record.text.as_str(), TEXT_COLUMNS);
    let registers = registers_to_text(record.registers);
    line.append(registers.as_str());
    assert(line@ =~= format_spec(record@));
    line
}

/// Cuts a line to its first 73 columns.
pub fn truncate_line(line: &str) -> (cut: &str)
    ensures
        cut@ == truncated(line@),
{
    if line.unicode_len() > TRACE_COLUMNS {
        line.substring_char(0, TRACE_COLUMNS)
    } else {
        line
    }
}

/// Compares one produced line with its golden line, both cut to 73
/// columns. A difference is reported with both cut lines and `index`.
pub fn compare_line(produced: &str, golden: &str, index: usize) -> (result: Result<
    (),
    TraceMismatch,
>)
    ensures
        result is Ok <==> lines_agree(produced@, golden@),
        result matches Err(mismatch) ==> mismatch.index == index && mismatch.expected@
            == truncated(golden@) && mismatch.actual@ == truncated(produced@),
{
    let expected = truncate_line(golden).to_owned();
    let actual = truncate_line(produced).to_owned();
    if expected == actual {
        Ok(())
    } else {
        Err(TraceMismatch { expected, actual, index })
    }
}

/// The conformance verifier: walks the produced and the golden lines in
/// lockstep, as far as both reach, and stops at the first pair that
/// differs. `Ok` carries the number of pairs compared.
pub fn verify_trace(produced: &Vec<String>, golden: &Vec<String>) -> (result: Result<
    usize,
    TraceMismatch,
>)
    ensures
        match result {
            Ok(compared) => {
                &&& compared == if produced@.len() <= golden@.len() {
                    produced@.len()
                } else {
                    golden@.len()
                }
                &&& forall|i: int|
                    0 <= i < compared ==> lines_agree(#[trigger] produced@[i]@, golden@[i]@)
            },
            Err(mismatch) => {
                &&& mismatch.index < produced@.len()
                &&& mismatch.index < golden@.len()
                &&& forall|i: int|
                    0 <= i < mismatch.index ==> lines_agree(#[trigger] produced@[i]@, golden@[i]@)
                &&& !lines_agree(
                    produced@[mismatch.index as int]@,
                    golden@[mismatch.index as int]@,
                )
                &&& mismatch.expected@ == truncated(golden@[mismatch.index as int]@)
                &&& mismatch.actual@ == truncated(produced@[mismatch.index as int]@)
            },
        },
{
    let count = if produced.len() <= golden.len() {
        produced.len()
    } else {
        golden.len()
    };
    let mut i: usize = 0;
    while i < count
        invariant
            i <= count,
            count <= produced@.len(),
            count <= golden@.len(),
            forall|j: int| 0 <= j < i ==> lines_agree(#[trigger] produced@[j]@, golden@[j]@),
        decreases count - i,
    {
        match compare_line(produced[i].as_str(), golden[i].as_str(), i) {
            Ok(()) => {},
            Err(mismatch) => {
                return Err(mismatch);
            },
        }
        i += 1;
    }
    Ok(count)
}

/// A record with one to three bytes and a disassembly of at most 32
/// columns gives a line of exactly 73 columns, which cutting leaves whole.
pub proof fn lemma_line_width(record: TraceModel)
    requires
        1 <= record.bytes.len() <= 3,
        record.text.len() <= TEXT_COLUMNS,
    ensures
        format_spec(record).len() == TRACE_COLUMNS,
        truncated(format_spec(record)) == format_spec(record),
{
    reveal_strlit(" ");
    reveal_strlit("  ");
    reveal_strlit("A:");
    reveal_strlit(" X:");
    reveal_strlit(" Y:");
    reveal_strlit(" P:");
    reveal_strlit(" SP:");
    let b = record.bytes;
    reveal_with_fuel(bytes_text, 4);
    if b.len() == 1 {
        assert(bytes_text(b).len() == 2);
    } else if b.len() == 2 {
        assert(b.drop_last().len() == 1);
        assert(bytes_text(b).len() == 5);
    } else {
        assert(b.drop_last().len() == 2);
        assert(b.drop_last().drop_last().len() == 1);
        assert(bytes_text(b.drop_last()).len() == 5);
        assert(bytes_text(b).len() == 8);
    }
    assert(1 <= bytes_text(b).len() <= 8);
}

} // verus!
