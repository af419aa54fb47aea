//! A disassembler core for a fixed-width 32-bit MIPS-like instruction
//! encoding: bit-range extraction, opcode dispatch into a typed
//! instruction value, and rendering of each instruction as text.

mod bitrange;

pub use bitrange::{
    field, lemma_field_round_trip, lemma_full_range, lemma_single_bit, low_mask, range_u16, range_u32, range_u8,
    valid_range,
};

mod opcodes;

pub use opcodes::{
    beql_offset, decode, opcode_field, opcode_of, ANDIVars, BEQLVars, CPRType, GPRType, Instruction, LUIVars,
    LWVars, MTC0Vars, OpCode, ORIVars,
};

mod text;

pub use text::{
    bin_text, dec_text, digit_char, digits, hex_text, instruction_format, instruction_text, unknown_format, unknown_text,
    word_format, word_text,
};

mod stream;

pub use stream::{be_value, disassemble, word_at, word_count, word_of};

mod laws;

pub use laws::{
    lemma_beql_offset_unsigned, lemma_decode_deterministic, lemma_decode_round_trip, lemma_unknown_opcode,
    reassemble,
};
