//! Rendering of numbers and decoded instructions as text.
use vstd::prelude::*;
use vstd::string::StringExecFns;
use crate::bitrange::range_u8;
use crate::opcodes::{decode, opcode_field, Instruction};

verus! {

/// The digit character for `d < 16` (lower case beyond 9).
pub open spec fn digit_char(d: nat) -> char {
    seq!['0', '1', '2', '3', '4', '5', '6', '7', '8', '9', 'a', 'b', 'c', 'd', 'e', 'f'][d as int]
}

/// The digits of `n` in base `base` (2 to 16), most significant first,
/// without leading zeros ("0" for zero).
pub open spec fn digits(n: nat, base: nat) -> Seq<char>
    decreases n
    via digits_decreases
{
    if n < base || base < 2 {
        seq![digit_char(n)]
    } else {
        digits(n / base, base).push(digit_char(n % base))
    }
}

#[via_fn]
proof fn digits_decreases(n: nat, base: nat) {
    if !(n < base || base < 2) {
        assert(n / base < n) by (nonlinear_arith)
            requires
                n >= base >= 2,
        ;
    }
}

/// `n` in decimal.
pub open spec fn dec_text(n: nat) -> Seq<char> {
    digits(n, 10)
}

/// `n` in hexadecimal with a `0x` prefix.
pub open spec fn hex_text(n: nat) -> Seq<char> {
    seq!['0', 'x'] + digits(n, 16)
}

/// The `width` lowest binary digits of `n`, most significant first.
pub open spec fn bin_text(n: nat, width: nat) -> Seq<char>
    decreases width,
{
    if width == 0 {
        Seq::empty()
    } else {
        bin_text(n / 2, (width - 1) as nat).push(digit_char(n % 2))
    }
}

/// Relies on String::push: the character is added at the end.
#[verifier::external_body]
fn push_char(s: &mut String, c: char)
    ensures
        final(s)@ == old(s)@.push(c),
{
    s.push(c);
}

fn digit(d: u32) -> (c: char)
    requires
        d < 16,
    ensures
        c == digit_char(d as nat),
{
    match d {
        0 => '0',
        1 => '1',
        2 => '2',
        3 => '3',
        4 => '4',
        5 => '5',
        6 => '6',
        7 => '7',
        8 => '8',
        9 => '9',
        10 => 'a',
        11 => 'b',
        12 => 'c',
        13 => 'd',
        14 => 'e',
        _ => 'f',
    }
}

/// Appends the digits of `n` in base `base`.
fn push_digits(s: &mut String, n: u32, base: u32)
    requires
        2 <= base <= 16,
    ensures
        final(s)@ == old(s)@ + digits(n as nat, base as nat),
    decreases n,
{
    if n >= base {
        push_digits(s, n / base, base);
        push_char(s, digit(n % base));
        assert(final(s)@ =~= old(s)@ + digits(n as nat, base as nat));
    } else {
        push_char(s, digit(n));
        assert(final(s)@ =~= old(s)@ + digits(n as nat, base as nat));
    }
}

/// Appends the `width` lowest binary digits of `n`.
fn push_bin(s: &mut String, n: u32, width: u32)
    ensures
        final(s)@ == old(s)@ + bin_text(n as nat, width as nat),
    decreases width,
{
    if width > 0 {
        push_bin(s, n / 2, width - 1);
        push_char(s, digit(n % 2));
        assert(final(s)@ =~= old(s)@ + bin_text(n as nat, width as nat));
    } else {
        assert(final(s)@ =~= old(s)@ + bin_text(n as nat, width as nat));
    }
}

fn push_dec(s: &mut String, n: u32)
    ensures
        final(s)@ == old(s)@ + dec_text(n as nat),
{
    push_digits(s, n, 10);
}

fn push_hex(s: &mut String, n: u32)
    ensures
        final(s)@ == old(s)@ + hex_text(n as nat),
{
    let ghost s0 = s@;
    push_char(s, '0');
    push_char(s, 'x');
    push_digits(s, n, 16);
    assert(s@ =~= s0 + hex_text(n as nat));
}

/// The assembly text of a decoded instruction: register numbers in decimal
/// after `r` (`c` for a coprocessor register), immediates and offsets in
/// hexadecimal, except the LW offset, which is decimal.
pub open spec fn instruction_text(i: Instruction) -> Seq<char> {
    match i {
        Instruction::ANDI(v) => "andi r"@ + dec_text(v.rt as nat) + ", r"@ + dec_text(v.rs as nat) + ", "@
            + hex_text(v.immediate as nat),
        Instruction::BEQL(v) => "beql r"@ + dec_text(v.rs as nat) + ", r"@ + dec_text(v.rt as nat) + ", "@
            + hex_text(v.offset as u32 as nat),
        Instruction::LUI(v) => "lui r"@ + dec_text(v.rt as nat) + ", "@ + hex_text(v.immediate as nat),
        Instruction::LW(v) => "lw r"@ + dec_text(v.rt as nat) + ", "@ + dec_text(v.offset as nat) + "("@
            + dec_text(v.base as nat) + ")"@,
        Instruction::MTC0(v) => "mtc0 r"@ + dec_text(v.rt as nat) + ", c"@ + dec_text(v.rd as nat) + ", "@
            + hex_text(v.sel as nat),
        Instruction::ORI(v) => "ori r"@ + dec_text(v.rt as nat) + ", r"@ + dec_text(v.rs as nat) + ", "@
            + hex_text(v.immediate as nat),
    }
}

/// Renders a decoded instruction as one line of assembly text.
pub fn instruction_format(instruction: &Instruction) -> (r: String)
    ensures
        r@ == instruction_text(*instruction),
{
    let mut s = String::new();
    match instruction {
        Instruction::ANDI(v) => {
            s.append("andi r");
            push_dec(&mut s, v.rt as u32);
            s.append(", r");
            push_dec(&mut s, v.rs as u32);
            s.append(", ");
            push_hex(&mut s, v.immediate as u32);
        },
        Instruction::BEQL(v) => {
            s.append("beql r");
            push_dec(&mut s, v.rs as u32);
            s.append(", r");
            push_dec(&mut s, v.rt as u32);
            s.append(", ");
            push_hex(&mut s, v.offset as u32);
        },
        Instruction::LUI(v) => {
            s.append("lui r");
            push_dec(&mut s, v.rt as u32);
            s.append(", ");
            push_hex(&mut s, v.immediate as u32);
        },
        Instruction::LW(v) => {
            s.append("lw r");
            push_dec(&mut s, v.rt as u32);
            s.append(", ");
            push_dec(&mut s, v.offset as u32);
            s.append("(");
            push_dec(&mut s, v.base as u32);
            s.append(")");
        },
        Instruction::MTC0(v) => {
            s.append("mtc0 r");
            push_dec(&mut s, v.rt as u32);
            s.append(", c");
            push_dec(&mut s, v.rd as u32);
            s.append(", ");
            push_hex(&mut s, v.sel as u32);
        },
        Instruction::ORI(v) => {
            s.append("ori r");
            push_dec(&mut s, v.rt as u32);
            s.append(", r");
            push_dec(&mut s, v.rs as u32);
            s.append(", ");
            push_hex(&mut s, v.immediate as u32);
        },
    }
    assert(s@ =~= instruction_text(*instruction));
    s
}

impl Instruction {
    /// The instruction as one line of assembly text.
    pub fn to_string(&self) -> (r: String)
        ensures
            r@ == instruction_text(*self),
    {
        instruction_format(self)
    }
}

/// The line shown for a word whose opcode is not supported: the 6-bit
/// opcode in binary, zero-padded to six digits, then in hexadecimal.
pub open spec fn unknown_text(opcode: u32) -> Seq<char> {
    bin_text(opcode as nat, 6) + " "@ + hex_text(opcode as nat)
}

/// The line shown for a word: its instruction's text when it decodes,
/// else the unknown-opcode line.
pub open spec fn word_text(w: u32) -> Seq<char> {
    match decode(w) {
        Some(i) => instruction_text(i),
        None => unknown_text(opcode_field(w)),
    }
}

/// The unknown-opcode line for `word`.
pub fn unknown_format(word: u32) -> (r: String)
    ensures
        r@ == unknown_text(opcode_field(word)),
{
    let opcode: u8 = range_u8(word, 26, 31);
    let mut s = String::new();
    push_bin(&mut s, opcode as u32, 6);
    s.append(" ");
    push_hex(&mut s, opcode as u32);
    assert(s@ =~= unknown_text(opcode_field(word)));
    s
}

/// The line shown for `word`.
pub fn word_format(word: u32) -> (r: String)
    ensures
        r@ == word_text(word),
{
    match Instruction::from_u32(word) {
        Some(i) => instruction_format(&i),
        None => unknown_format(word),
    }
}

} // verus!
