//! Properties of the decoder that hold of every word.
use vstd::prelude::*;
use crate::bitrange::field;
use crate::opcodes::{beql_offset, decode, opcode_field, opcode_of, Instruction};

verus! {

/// A word rebuilt from a decoded instruction: the opcode field of `w`, the
/// instruction's fields at the places its layout gives them, and the bits
/// of `w` that the layout leaves out.
pub open spec fn reassemble(i: Instruction, w: u32) -> u32 {
    let op: u32 = opcode_field(w) << 26u32;
    match i {
        Instruction::ANDI(v) => op | ((v.rs as u32) << 21u32) | ((v.rt as u32) << 16u32) | (v.immediate as u32),
        Instruction::BEQL(v) => op | ((v.rs as u32) << 21u32) | ((v.rt as u32) << 16u32) | ((v.offset as u32) >> 2u32),
        Instruction::LUI(v) => op | ((v.rt as u32) << 21u32) | (w & 0x001f_0000) | (v.immediate as u32),
        Instruction::LW(v) => op | ((v.base as u32) << 21u32) | ((v.rt as u32) << 16u32) | (v.offset as u32),
        Instruction::MTC0(v) => op | (w & 0x03e0_0000) | ((v.rt as u32) << 16u32) | ((v.rd as u32) << 11u32)
            | (w & 0x0000_07f0) | (v.sel as u32),
        Instruction::ORI(v) => op | ((v.rs as u32) << 21u32) | ((v.rt as u32) << 16u32) | (v.immediate as u32),
    }
}

/// Decoding depends on the word alone: equal words decode alike.
pub proof fn lemma_decode_deterministic(w1: u32, w2: u32)
    requires
        w1 == w2,
    ensures
        decode(w1) == decode(w2),
{
}

/// A word decodes to nothing exactly when its opcode field is outside
/// {0xc, 0x14, 0xf, 0x23, 0x10, 0xd}.
pub proof fn lemma_unknown_opcode(w: u32)
    ensures
        decode(w) is None <==> !(set![0xcu32, 0x14u32, 0xfu32, 0x23u32, 0x10u32, 0xdu32].contains(
            opcode_field(w),
        )),
{
    assert(opcode_of(opcode_field(w)) is None <==> !(set![0xcu32, 0x14u32, 0xfu32, 0x23u32, 0x10u32, 0xdu32].contains(
            opcode_field(w),
        )));
}

/// The BEQL offset is the 16-bit field times four, read without sign
/// extension: it is never negative, even when the field's top bit is set.
pub proof fn lemma_beql_offset_unsigned(w: u32)
    ensures
        beql_offset(w) == field(w, 0, 15) * 4,
        beql_offset(w) >= 0,
{
    let v: u32 = w >> 0u32;
    assert(v & (0xffff_ffffu32 >> 16u32) <= 0xffff) by (bit_vector);
}

/// Extracting the fields of a decoded word and putting them back at their
/// places, with the other bits of the word kept, gives the word back.
pub proof fn lemma_decode_round_trip(w: u32)
    requires
        decode(w) is Some,
    ensures
        reassemble(decode(w)->0, w) == w,
{
    let a: u32 = w >> 21u32;
    let b: u32 = w >> 16u32;
    let c: u32 = w >> 11u32;
    assert(a & 0x1f < 0x100 && b & 0x1f < 0x100 && c & 0x1f < 0x100 && w & 0xf < 0x100 && w & 0xffff < 0x1_0000)
        by (bit_vector);
    assert(0xffff_ffffu32 >> 27u32 == 0x1f) by (bit_vector);
    assert(0xffff_ffffu32 >> 16u32 == 0xffff) by (bit_vector);
    assert(0xffff_ffffu32 >> 28u32 == 0xf) by (bit_vector);
    assert(0xffff_ffffu32 >> 26u32 == 0x3f) by (bit_vector);
    let rs: u32 = (w >> 21u32) & 0x1f;
    let rt: u32 = (w >> 16u32) & 0x1f;
    let rd: u32 = (w >> 11u32) & 0x1f;
    let imm: u32 = w & 0xffff;
    let sel: u32 = w & 0xf;
    let op: u32 = ((w >> 26u32) & 0x3f) << 26u32;
    assert(w >> 0u32 == w) by (bit_vector);
    assert(op | (rs << 21u32) | (rt << 16u32) | imm == w) by (bit_vector)
        requires
            rs == (w >> 21u32) & 0x1f,
            rt == (w >> 16u32) & 0x1f,
            imm == w & 0xffff,
            op == ((w >> 26u32) & 0x3f) << 26u32,
    ;
    assert(op | (rs << 21u32) | (w & 0x001f_0000) | imm == w) by (bit_vector)
        requires
            rs == (w >> 21u32) & 0x1f,
            imm == w & 0xffff,
            op == ((w >> 26u32) & 0x3f) << 26u32,
    ;
    assert(op | (w & 0x03e0_0000) | (rt << 16u32) | (rd << 11u32) | (w & 0x0000_07f0) | sel == w)
        by (bit_vector)
        requires
            rt == (w >> 16u32) & 0x1f,
            rd == (w >> 11u32) & 0x1f,
            sel == w & 0xf,
            op == ((w >> 26u32) & 0x3f) << 26u32,
    ;
    assert(((imm * 4) as i32) as u32 >> 2u32 == imm) by (bit_vector)
        requires
            imm == w & 0xffff,
    ;
}

} // verus!
