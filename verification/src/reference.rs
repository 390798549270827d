//! A trace of a reference run, against which a run of this core can be held
//! step by step.
//!
//! The trace is text, one step a line:
//!
//! ```text
//! 0x0100: NOP (0x00)
//! 0x0150: BIT 7,H (CB 0x7C)
//! ```
//!
//! A line gives the program counter in hexadecimal, the instruction in
//! words and, in the last pair of parentheses, the opcode. A line that does
//! not begin with a program counter is passed over.

use vstd::prelude::*;
use vstd::utf8::{decode_utf8, valid_utf8};
use crate::text::{copy_range, string_from_utf8};

verus! {

#[derive(Debug, Clone, Copy, PartialEq, Eq, Structural)]
pub enum ReferenceOpcode {
    Plain(u8),
    CB(u8),
}

/// One step of the reference run.
#[derive(Debug)]
pub struct ReferenceMetadata {
    /// Where the program counter stood before the step.
    pub pc: u16,
    /// The instruction in the reference's own words.
    pub instruction: String,
    pub opcode: ReferenceOpcode,
    /// The line of the trace that describes the step, counted from one.
    pub line: usize,
}

/// Why a trace cannot be used. Lines are counted from one.
#[derive(Debug, Clone, Copy, PartialEq, Eq, Structural)]
pub enum ReferenceError {
    /// The line gives a program counter and nothing after it.
    MissingInstruction { line: usize },
    /// The instruction of the line is not valid UTF-8.
    InvalidInstruction { line: usize },
    /// The line has no opening parenthesis.
    MissingOpcode { line: usize },
    /// What follows the last opening parenthesis of the line is no opcode.
    InvalidOpcode { line: usize },
}

/// What a line of the trace says.
pub struct ReferenceEntry {
    pub pc: u16,
    /// The bytes of the instruction's text.
    pub instruction: Seq<u8>,
    pub opcode: ReferenceOpcode,
    pub line: usize,
}

pub open spec fn spec_hex_digit(byte: u8) -> Option<int> {
    if 0x30 <= byte <= 0x39 {
        Some(byte - 0x30)
    } else if 0x41 <= byte <= 0x46 {
        Some(byte - 0x41 + 10)
    } else if 0x61 <= byte <= 0x66 {
        Some(byte - 0x61 + 10)
    } else {
        None
    }
}

/// The number that the hexadecimal digits `digits` write, if they are all
/// digits.
pub open spec fn spec_digits_value(digits: Seq<u8>) -> Option<int>
    decreases digits.len(),
{
    if digits.len() == 0 {
        Some(0)
    } else {
        match (spec_digits_value(digits.drop_last()), spec_hex_digit(digits.last())) {
            (Some(value), Some(digit)) => Some(value * 16 + digit),
            _ => None,
        }
    }
}

/// The number up to `max` that `text` writes in hexadecimal: at least one
/// digit, with a plus sign before the digits if one likes.
pub open spec fn spec_hex_number(text: Seq<u8>, max: int) -> Option<int> {
    let digits = if text.len() > 0 && text[0] == 0x2B {
        text.subrange(1, text.len() as int)
    } else {
        text
    };
    if digits.len() == 0 {
        None
    } else {
        match spec_digits_value(digits) {
            Some(value) => if value <= max {
                Some(value)
            } else {
                None
            },
            None => None,
        }
    }
}

pub open spec fn spec_starts_with(text: Seq<u8>, prefix: Seq<u8>) -> bool {
    text.len() >= prefix.len() && text.subrange(0, prefix.len() as int) == prefix
}

pub open spec fn spec_is_separator_at(line: Seq<u8>, at: int) -> bool {
    0 <= at && at + 1 < line.len() && line[at] == 0x3A && line[at + 1] == 0x20
}

/// Where, from `from` on, a colon followed by a space first stands in
/// `line`; the length of `line` if nowhere.
pub open spec fn spec_separator(line: Seq<u8>, from: int) -> int
    decreases line.len() - from,
{
    if from < 0 || from >= line.len() {
        line.len() as int
    } else if spec_is_separator_at(line, from) {
        from
    } else {
        spec_separator(line, from + 1)
    }
}

/// Where the last opening parenthesis stands among the first `upto` bytes
/// of `line`; -1 if there is none.
pub open spec fn spec_last_paren(line: Seq<u8>, upto: int) -> int
    decreases upto,
{
    if upto <= 0 || upto > line.len() {
        -1
    } else if line[upto - 1] == 0x28 {
        upto - 1
    } else {
        spec_last_paren(line, upto - 1)
    }
}

/// Where the last character of `text` begins: before the bytes that
/// continue a character and the one byte that starts it.
pub open spec fn spec_last_char_start(text: Seq<u8>, upto: int) -> int
    decreases upto,
{
    if upto <= 0 || upto > text.len() {
        0
    } else if 0x80 <= text[upto - 1] < 0xC0 {
        spec_last_char_start(text, upto - 1)
    } else {
        upto - 1
    }
}

/// The opcode that the text after the last opening parenthesis of `part`
/// names, its last character (the closing parenthesis) left off: `0x` and
/// two digits, with `CB ` before them for an opcode behind the prefix.
pub open spec fn spec_read_opcode(part: Seq<u8>) -> Option<ReferenceOpcode> {
    let open = spec_last_paren(part, part.len() as int);
    if open < 0 {
        None
    } else {
        let inside = part.subrange(open + 1, part.len() as int);
        let text = inside.subrange(0, spec_last_char_start(inside, inside.len() as int));
        if spec_starts_with(text, seq![0x43u8, 0x42u8]) {
            if spec_starts_with(text, seq![0x43u8, 0x42u8, 0x20u8, 0x30u8, 0x78u8]) {
                match spec_hex_number(text.subrange(5, text.len() as int), 0xFF) {
                    Some(value) => Some(ReferenceOpcode::CB(value as u8)),
                    None => None,
                }
            } else {
                None
            }
        } else if spec_starts_with(text, seq![0x30u8, 0x78u8]) {
            match spec_hex_number(text.subrange(2, text.len() as int), 0xFF) {
                Some(value) => Some(ReferenceOpcode::Plain(value as u8)),
                None => None,
            }
        } else {
            None
        }
    }
}

/// What the line `line`, the `number`th of the trace, says: an entry, or
/// nothing where it does not begin with `0x` and a program counter before
/// its first colon and space, or why it cannot be read.
pub open spec fn spec_parse_line(line: Seq<u8>, number: usize) -> Result<
    Option<ReferenceEntry>,
    ReferenceError,
> {
    let first = spec_separator(line, 0);
    let head = line.subrange(0, first);
    if !spec_starts_with(head, seq![0x30u8, 0x78u8]) {
        Ok(None)
    } else {
        match spec_hex_number(head.subrange(2, head.len() as int), 0xFFFF) {
            None => Ok(None),
            Some(pc) => if first >= line.len() {
                Err(ReferenceError::MissingInstruction { line: number })
            } else {
                let instruction = line.subrange(first + 2, spec_separator(line, first + 2));
                if !valid_utf8(instruction) {
                    Err(ReferenceError::InvalidInstruction { line: number })
                } else if spec_last_paren(line, line.len() as int) < 0 {
                    Err(ReferenceError::MissingOpcode { line: number })
                } else {
                    match spec_read_opcode(line) {
                        None => Err(ReferenceError::InvalidOpcode { line: number }),
                        Some(opcode) => Ok(
                            Some(
                                ReferenceEntry {
                                    pc: pc as u16,
                                    instruction,
                                    opcode,
                                    line: number,
                                },
                            ),
                        ),
                    }
                }
            },
        }
    }
}

impl ReferenceMetadata {
    /// Whether `self` holds what `entry` says.
    pub open spec fn describes(&self, entry: ReferenceEntry) -> bool {
        &&& self.pc == entry.pc
        &&& self.instruction@ == decode_utf8(entry.instruction)
        &&& self.opcode == entry.opcode
        &&& self.line == entry.line
    }
}

fn hex_digit(byte: u8) -> (r: Option<u8>)
    ensures
        match spec_hex_digit(byte) {
            Some(digit) => r == Some(digit as u8) && digit < 16,
            None => r is None,
        },
{
    if 0x30 <= byte && byte <= 0x39 {
        Some(byte - 0x30)
    } else if 0x41 <= byte && byte <= 0x46 {
        Some(byte - 0x41 + 10)
    } else if 0x61 <= byte && byte <= 0x66 {
        Some(byte - 0x61 + 10)
    } else {
        None
    }
}

proof fn lemma_digits_prefix(digits: Seq<u8>, upto: int)
    requires
        0 <= upto <= digits.len(),
    ensures
        spec_digits_value(digits.subrange(0, upto)) is None ==> spec_digits_value(digits) is None,
        spec_digits_value(digits) matches Some(value) ==> spec_digits_value(
            digits.subrange(0, upto),
        ) matches Some(part) && 0 <= part <= value,
    decreases digits.len() - upto,
{
    if upto < digits.len() {
        lemma_digits_prefix(digits, upto + 1);
        assert(digits.subrange(0, upto + 1).drop_last() =~= digits.subrange(0, upto));
        lemma_digits_nonnegative(digits.subrange(0, upto));
    } else {
        assert(digits.subrange(0, upto) =~= digits);
        lemma_digits_nonnegative(digits);
    }
}

proof fn lemma_digits_nonnegative(digits: Seq<u8>)
    ensures
        spec_digits_value(digits) matches Some(value) ==> value >= 0,
    decreases digits.len(),
{
    if digits.len() > 0 {
        lemma_digits_nonnegative(digits.drop_last());
    }
}

/// Reads the bytes of `text` from `start` on as a hexadecimal number up to
/// `max`.
#[verifier::rlimit(30)]
fn hex_number(text: &Vec<u8>, start: usize, max: u32) -> (r: Option<u32>)
    requires
        start <= text.len(),
        max <= 0xFFFF,
    ensures
        match spec_hex_number(text@.subrange(start as int, text.len() as int), max as int) {
            Some(value) => r == Some(value as u32) && 0 <= value <= max,
            None => r is None,
        },
{
    let ghost whole = text@.subrange(start as int, text.len() as int);
    let ghost goal = spec_hex_number(whole, max as int);
    let mut at = start;
    if at < text.len() && text[at] == 0x2B {
        at += 1;
    }
    let first = at;
    let ghost digits = text@.subrange(first as int, text.len() as int);
    assert(digits =~= if whole.len() > 0 && whole[0] == 0x2B {
        whole.subrange(1, whole.len() as int)
    } else {
        whole
    });
    if at == text.len() {
        return None;
    }
    let mut value: u32 = 0;
    assert(digits.subrange(0, 0) =~= Seq::<u8>::empty());
    while at < text.len()
        invariant
            first <= at <= text.len(),
            first < text.len(),
            max <= 0xFFFF,
            digits == text@.subrange(first as int, text.len() as int),
            goal == spec_hex_number(text@.subrange(start as int, text.len() as int), max as int),
            goal == (match spec_digits_value(digits) {
                Some(value) => if value <= max {
                    Some(value)
                } else {
                    None
                },
                None => None,
            }),
            spec_digits_value(digits.subrange(0, at - first)) == Some(value as int),
            value <= max,
        decreases text.len() - at,
    {
        let ghost upto = digits.subrange(0, at - first + 1);
        proof {
            assert(upto.drop_last() =~= digits.subrange(0, at - first));
            assert(upto.last() == text@[at as int]);
            lemma_digits_prefix(digits, at - first + 1);
        }
        let digit = match hex_digit(text[at]) {
            Some(digit) => digit,
            None => {
                assert(spec_digits_value(upto) is None);
                return None;
            },
        };
        let next = value * 16 + digit as u32;
        assert(spec_digits_value(upto) == Some(next as int));
        if next > max {
            return None;
        }
        value = next;
        at += 1;
    }
    assert(digits.subrange(0, at - first) =~= digits);
    Some(value)
}

/// Where, from `from` on, a colon followed by a space first stands.
fn find_separator(line: &Vec<u8>, from: usize) -> (r: usize)
    ensures
        r == spec_separator(line@, from as int),
        from <= line.len() ==> from <= r <= line.len(),
        r < line.len() ==> r + 1 < line.len(),
{
    let mut at = from;
    while at < line.len()
        invariant
            from <= at,
            spec_separator(line@, from as int) == spec_separator(line@, at as int),
        decreases line.len() - at,
    {
        if line[at] == 0x3A && at + 1 < line.len() && line[at + 1] == 0x20 {
            return at;
        }
        at += 1;
    }
    line.len()
}

fn starts_with(text: &Vec<u8>, start: usize, prefix: &Vec<u8>) -> (r: bool)
    requires
        start <= text.len(),
    ensures
        r == spec_starts_with(text@.subrange(start as int, text.len() as int), prefix@),
{
    let ghost rest = text@.subrange(start as int, text.len() as int);
    if text.len() - start < prefix.len() {
        return false;
    }
    let mut i: usize = 0;
    while i < prefix.len()
        invariant
            i <= prefix.len(),
            start + prefix.len() <= text.len(),
            rest == text@.subrange(start as int, text.len() as int),
            forall|j: int| 0 <= j < i ==> rest[j] == prefix@[j],
        decreases prefix.len() - i,
    {
        if text[start + i] != prefix[i] {
            assert(rest.subrange(0, prefix.len() as int)[i as int] != prefix@[i as int]);
            return false;
        }
        i += 1;
    }
    assert(rest.subrange(0, prefix.len() as int) =~= prefix@);
    true
}

/// The opcode that a line of the trace names in its last parentheses.
#[verifier::rlimit(30)]
pub fn read_opcode(part: &Vec<u8>) -> (r: Option<ReferenceOpcode>)
    ensures
        r == spec_read_opcode(part@),
{
    let mut open = part.len();
    while open > 0 && part[open - 1] != 0x28
        invariant
            open <= part.len(),
            spec_last_paren(part@, part.len() as int) == spec_last_paren(part@, open as int),
        decreases open,
    {
        open -= 1;
    }
    if open == 0 {
        return None;
    }
    assert(spec_last_paren(part@, part.len() as int) == open - 1);
    let inside = copy_range(part, open, part.len());
    let mut end = inside.len();
    while end > 0 && 0x80 <= inside[end - 1] && inside[end - 1] < 0xC0
        invariant
            end <= inside.len(),
            spec_last_char_start(inside@, inside.len() as int) == spec_last_char_start(
                inside@,
                end as int,
            ),
        decreases end,
    {
        end -= 1;
    }
    if end > 0 {
        end -= 1;
    }
    assert(end == spec_last_char_start(inside@, inside.len() as int));
    let text = copy_range(&inside, 0, end);
    proof {
        assert(text@.subrange(0, text.len() as int) =~= text@);
    }
    let marker: Vec<u8> = vec![0x43, 0x42];
    let prefixed: Vec<u8> = vec![0x43, 0x42, 0x20, 0x30, 0x78];
    let plain: Vec<u8> = vec![0x30, 0x78];
    assert(marker@ =~= seq![0x43u8, 0x42u8]);
    assert(prefixed@ =~= seq![0x43u8, 0x42u8, 0x20u8, 0x30u8, 0x78u8]);
    assert(plain@ =~= seq![0x30u8, 0x78u8]);
    if starts_with(&text, 0, &marker) {
        if !starts_with(&text, 0, &prefixed) {
            return None;
        }
        match hex_number(&text, 5, 0xFF) {
            Some(value) => Some(ReferenceOpcode::CB(value as u8)),
            None => None,
        }
    } else if starts_with(&text, 0, &plain) {
        match hex_number(&text, 2, 0xFF) {
            Some(value) => Some(ReferenceOpcode::Plain(value as u8)),
            None => None,
        }
    } else {
        None
    }
}

/// Reads one line of the trace, without its line end.
#[verifier::rlimit(30)]
pub fn parse_reference_line(line: &Vec<u8>, number: usize) -> (r: Result<
    Option<ReferenceMetadata>,
    ReferenceError,
>)
    ensures
        match spec_parse_line(line@, number) {
            Ok(Some(entry)) => r matches Ok(Some(metadata)) && metadata.describes(entry),
            Ok(None) => r matches Ok(None),
            Err(e) => r matches Err(error) && error == e,
        },
{
    let first = find_separator(line, 0);
    let head = copy_range(line, 0, first);
    let plain: Vec<u8> = vec![0x30, 0x78];
    assert(plain@ =~= seq![0x30u8, 0x78u8]);
    proof {
        assert(head@.subrange(0, head.len() as int) =~= head@);
    }
    if !starts_with(&head, 0, &plain) {
        return Ok(None);
    }
    let pc = match hex_number(&head, 2, 0xFFFF) {
        Some(pc) => pc as u16,
        None => {
            return Ok(None);
        },
    };
    if first >= line.len() {
        return Err(ReferenceError::MissingInstruction { line: number });
    }
    let second = find_separator(line, first + 2);
    let instruction = match string_from_utf8(copy_range(line, first + 2, second)) {
        Some(instruction) => instruction,
        None => {
            return Err(ReferenceError::InvalidInstruction { line: number });
        },
    };
    let opcode = match read_opcode(line) {
        Some(opcode) => opcode,
        None => {
            proof {
                lemma_paren_in_range(line@, line.len() as int);
            }
            return Err(
                if has_paren(line) {
                    ReferenceError::InvalidOpcode { line: number }
                } else {
                    ReferenceError::MissingOpcode { line: number }
                },
            );
        },
    };
    proof {
        lemma_paren_in_range(line@, line.len() as int);
    }
    Ok(Some(ReferenceMetadata { pc, instruction, opcode, line: number }))
}

proof fn lemma_paren_in_range(line: Seq<u8>, upto: int)
    requires
        0 <= upto <= line.len(),
    ensures
        -1 <= spec_last_paren(line, upto) < upto,
        spec_last_paren(line, upto) >= 0 ==> line[spec_last_paren(line, upto)] == 0x28,
        spec_last_paren(line, upto) < 0 ==> forall|i: int| 0 <= i < upto ==> line[i] != 0x28,
    decreases upto,
{
    if upto > 0 && line[upto - 1] != 0x28 {
        lemma_paren_in_range(line, upto - 1);
    }
}

fn has_paren(line: &Vec<u8>) -> (r: bool)
    ensures
        r == (spec_last_paren(line@, line.len() as int) >= 0),
{
    let mut at = line.len();
    while at > 0
        invariant
            at <= line.len(),
            spec_last_paren(line@, line.len() as int) == spec_last_paren(line@, at as int),
        decreases at,
    {
        if line[at - 1] == 0x28 {
            return true;
        }
        at -= 1;
    }
    false
}

/// Where the line that begins at `from` ends: at the next line feed, or at
/// the end of `text`.
pub open spec fn spec_line_end(text: Seq<u8>, from: int) -> int
    decreases text.len() - from,
{
    if from < 0 || from >= text.len() || text[from] == 0x0A {
        if from < 0 || from >= text.len() {
            text.len() as int
        } else {
            from
        }
    } else {
        spec_line_end(text, from + 1)
    }
}

/// The line of `text` that begins at `from`, without its line feed and
/// without a carriage return before it.
pub open spec fn spec_line_at(text: Seq<u8>, from: int) -> Seq<u8> {
    let end = spec_line_end(text, from);
    if from < end && text[end - 1] == 0x0D {
        text.subrange(from, end - 1)
    } else {
        text.subrange(from, end)
    }
}

/// Where the line after the one that begins at `from` begins.
pub open spec fn spec_next_line(text: Seq<u8>, from: int) -> int {
    let end = spec_line_end(text, from);
    if end < text.len() {
        end + 1
    } else {
        text.len() as int
    }
}

pub open spec fn spec_next_number(number: usize) -> usize {
    if number < usize::MAX {
        (number + 1) as usize
    } else {
        number
    }
}

/// How reading the lines of `text` that begin at or after `from` ends, the
/// first of them being the `number`th: with the entries read, in the order
/// of the lines, or with the first fault.
pub open spec fn spec_parse_from(text: Seq<u8>, from: int, number: usize) -> Result<
    Seq<ReferenceEntry>,
    ReferenceError,
>
    decreases text.len() - from,
{
    if from < 0 || from >= text.len() {
        Ok(Seq::empty())
    } else {
        let next = spec_next_line(text, from);
        match spec_parse_line(spec_line_at(text, from), number) {
            Err(e) => Err(e),
            Ok(entry) => if from < next <= text.len() {
                match spec_parse_from(text, next, spec_next_number(number)) {
                    Err(e) => Err(e),
                    Ok(rest) => match entry {
                        Some(entry) => Ok(seq![entry] + rest),
                        None => Ok(rest),
                    },
                }
            } else {
                Ok(Seq::empty())
            },
        }
    }
}

proof fn lemma_line_end_in_range(text: Seq<u8>, from: int)
    requires
        0 <= from <= text.len(),
    ensures
        from <= spec_line_end(text, from) <= text.len(),
    decreases text.len() - from,
{
    if from < text.len() && text[from] != 0x0A {
        lemma_line_end_in_range(text, from + 1);
    }
}

/// Whether `entries` hold, one for one, what the entries `read` say.
pub open spec fn spec_describe_all(entries: Seq<ReferenceMetadata>, read: Seq<ReferenceEntry>) -> bool {
    &&& entries.len() == read.len()
    &&& forall|i: int| 0 <= i < entries.len() ==> (#[trigger] entries[i]).describes(read[i])
}

/// Reads a whole trace. Lines end with a line feed, or a carriage return
/// and a line feed.
#[verifier::rlimit(30)]
pub fn get_reference_metadata(text: &Vec<u8>) -> (r: Result<Vec<ReferenceMetadata>, ReferenceError>)
    ensures
        match spec_parse_from(text@, 0, 1) {
            Ok(read) => r matches Ok(entries) && spec_describe_all(entries@, read),
            Err(e) => r matches Err(error) && error == e,
        },
{
    let mut entries: Vec<ReferenceMetadata> = Vec::new();
    let ghost mut read: Seq<ReferenceEntry> = Seq::empty();
    let mut from: usize = 0;
    let mut number: usize = 1;
    proof {
        match spec_parse_from(text@, 0, 1) {
            Ok(rest) => {
                assert(read + rest =~= rest);
            },
            Err(e) => {},
        }
    }
    while from < text.len()
        invariant
            from <= text.len(),
            spec_describe_all(entries@, read),
            match spec_parse_from(text@, from as int, number) {
                Ok(rest) => spec_parse_from(text@, 0, 1) == Ok::<
                    Seq<ReferenceEntry>,
                    ReferenceError,
                >(read + rest),
                Err(e) => spec_parse_from(text@, 0, 1) == Err::<
                    Seq<ReferenceEntry>,
                    ReferenceError,
                >(e),
            },
        decreases text.len() - from,
    {
        let mut end = from;
        while end < text.len() && text[end] != 0x0A
            invariant
                from <= end <= text.len(),
                spec_line_end(text@, from as int) == spec_line_end(text@, end as int),
            decreases text.len() - end,
        {
            end += 1;
        }
        assert(spec_line_end(text@, from as int) == end);
        let stop = if from < end && text[end - 1] == 0x0D {
            end - 1
        } else {
            end
        };
        let line = copy_range(text, from, stop);
        assert(line@ == spec_line_at(text@, from as int));
        let next = if end < text.len() {
            end + 1
        } else {
            end
        };
        assert(next == spec_next_line(text@, from as int));
        let ghost following = spec_parse_from(text@, next as int, spec_next_number(number));
        match parse_reference_line(&line, number) {
            Err(e) => {
                return Err(e);
            },
            Ok(Some(entry)) => {
                proof {
                    let said = spec_parse_line(line@, number).unwrap().unwrap();
                    match following {
                        Ok(rest) => {
                            assert(read + (seq![said] + rest) =~= read.push(said) + rest);
                        },
                        Err(e) => {},
                    }
                    read = read.push(said);
                }
                entries.push(entry);
            },
            Ok(None) => {},
        }
        if number < usize::MAX {
            number += 1;
        }
        from = next;
    }
    proof {
        assert(read + Seq::<ReferenceEntry>::empty() =~= read);
    }
    Ok(entries)
}

} // verus!
