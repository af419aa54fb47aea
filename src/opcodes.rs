//! The supported opcodes, the decoded instruction value, and the decoder
//! from a 32-bit word to that value.
use vstd::prelude::*;
use crate::bitrange::{field, range_u16, range_u8};

verus! {

/// A general purpose register index (5 bits).
pub type GPRType = u8;

/// A coprocessor register index (5 bits).
pub type CPRType = u8;

/// The opcodes this decoder recognises, held in bits 26..=31 of a word.
#[derive(Clone, Copy, Debug, PartialEq, Eq, Structural)]
pub enum OpCode {
    ANDI,
    BEQL,
    LUI,
    LW,
    MTC0,
    ORI,
}

/// The opcode that the 6-bit value `v` stands for, if any.
pub open spec fn opcode_of(v: u32) -> Option<OpCode> {
    if v == 0xc {
        Some(OpCode::ANDI)
    } else if v == 0x14 {
        Some(OpCode::BEQL)
    } else if v == 0xf {
        Some(OpCode::LUI)
    } else if v == 0x23 {
        Some(OpCode::LW)
    } else if v == 0x10 {
        Some(OpCode::MTC0)
    } else if v == 0xd {
        Some(OpCode::ORI)
    } else {
        None
    }
}

impl OpCode {
    /// The opcode whose numeric value is `v`, or `None` when `v` is none of them.
    pub fn from_u8(v: u8) -> (r: Option<OpCode>)
        ensures
            r == opcode_of(v as u32),
    {
        match v {
            0xc => Some(OpCode::ANDI),
            0x14 => Some(OpCode::BEQL),
            0xf => Some(OpCode::LUI),
            0x23 => Some(OpCode::LW),
            0x10 => Some(OpCode::MTC0),
            0xd => Some(OpCode::ORI),
            _ => None,
        }
    }
}

/// Fields of ANDI (AND with a constant): rs in bits 21..=25, rt in 16..=20, immediate in 0..=15.
#[derive(Clone, Copy, Debug, PartialEq, Eq, Structural)]
pub struct ANDIVars {
    pub rs: GPRType,
    pub rt: GPRType,
    pub immediate: u16,
}

/// Fields of BEQL (branch on equal, likely): rs in bits 21..=25, rt in 16..=20, and the
/// byte offset made from bits 0..=15.
#[derive(Clone, Copy, Debug, PartialEq, Eq, Structural)]
pub struct BEQLVars {
    pub rs: GPRType,
    pub rt: GPRType,
    pub offset: i32,
}

/// Fields of LUI (load upper immediate): rt in bits 21..=25, immediate in 0..=15.
#[derive(Clone, Copy, Debug, PartialEq, Eq, Structural)]
pub struct LUIVars {
    pub rt: GPRType,
    pub immediate: u16,
}

/// Fields of LW (load word): base in bits 21..=25, rt in 16..=20, unsigned offset in 0..=15.
#[derive(Clone, Copy, Debug, PartialEq, Eq, Structural)]
pub struct LWVars {
    pub base: GPRType,
    pub rt: GPRType,
    pub offset: u16,
}

/// Fields of MTC0 (move to coprocessor 0): rt in bits 16..=20, rd in 11..=15, sel in 0..=3.
#[derive(Clone, Copy, Debug, PartialEq, Eq, Structural)]
pub struct MTC0Vars {
    pub rt: GPRType,
    pub rd: CPRType,
    pub sel: u8,
}

/// Fields of ORI (OR with a constant): rs in bits 21..=25, rt in 16..=20, immediate in 0..=15.
#[derive(Clone, Copy, Debug, PartialEq, Eq, Structural)]
pub struct ORIVars {
    pub rs: GPRType,
    pub rt: GPRType,
    pub immediate: u16,
}

/// A decoded instruction: one variant per supported opcode, holding the
/// fields that the opcode's layout defines.
#[derive(Clone, Copy, Debug, PartialEq, Eq, Structural)]
pub enum Instruction {
    ANDI(ANDIVars),
    BEQL(BEQLVars),
    LUI(LUIVars),
    LW(LWVars),
    MTC0(MTC0Vars),
    ORI(ORIVars),
}

/// The opcode field of a word: bits 26..=31.
pub open spec fn opcode_field(w: u32) -> u32 {
    field(w, 26, 31)
}

/// The branch offset of a BEQL word: the 16-bit field, read as unsigned,
/// shifted left by two. The field is not sign-extended first, so a field
/// with its top bit set gives a positive offset.
pub open spec fn beql_offset(w: u32) -> i32 {
    (field(w, 0, 15) * 4) as i32
}

/// What a word decodes to: `None` for an opcode outside the supported set,
/// else the variant of the opcode with the fields of its layout.
pub open spec fn decode(w: u32) -> Option<Instruction> {
    match opcode_of(opcode_field(w)) {
        Some(OpCode::ANDI) => Some(Instruction::ANDI(ANDIVars {
            rs: field(w, 21, 25) as u8,
            rt: field(w, 16, 20) as u8,
            immediate: field(w, 0, 15) as u16,
        })),
        Some(OpCode::BEQL) => Some(Instruction::BEQL(BEQLVars {
            rs: field(w, 21, 25) as u8,
            rt: field(w, 16, 20) as u8,
            offset: beql_offset(w),
        })),
        Some(OpCode::LUI) => Some(Instruction::LUI(LUIVars {
            rt: field(w, 21, 25) as u8,
            immediate: field(w, 0, 15) as u16,
        })),
        Some(OpCode::LW) => Some(Instruction::LW(LWVars {
            base: field(w, 21, 25) as u8,
            rt: field(w, 16, 20) as u8,
            offset: field(w, 0, 15) as u16,
        })),
        Some(OpCode::MTC0) => Some(Instruction::MTC0(MTC0Vars {
            rt: field(w, 16, 20) as u8,
            rd: field(w, 11, 15) as u8,
            sel: field(w, 0, 3) as u8,
        })),
        Some(OpCode::ORI) => Some(Instruction::ORI(ORIVars {
            rs: field(w, 21, 25) as u8,
            rt: field(w, 16, 20) as u8,
            immediate: field(w, 0, 15) as u16,
        })),
        None => None,
    }
}

impl Instruction {
    /// Decodes one instruction word; `None` when its opcode is not supported.
    pub fn from_u32(value: u32) -> (r: Option<Instruction>)
        ensures
            r == decode(value),
    {
        match OpCode::from_u8(range_u8(value, 26, 31)) {
            Some(OpCode::ANDI) => {
                let vars = ANDIVars {
                    rs: range_u8(value, 21, 25),
                    rt: range_u8(value, 16, 20),
                    immediate: range_u16(value, 0, 15),
                };
                Some(Instruction::ANDI(vars))
            },
            Some(OpCode::BEQL) => {
                let imm: u16 = range_u16(value, 0, 15);
                let vars = BEQLVars {
                    rs: range_u8(value, 21, 25),
                    rt: range_u8(value, 16, 20),
                    offset: (imm as i32) * 4,
                };
                Some(Instruction::BEQL(vars))
            },
            Some(OpCode::LUI) => {
                let vars = LUIVars {
                    rt: range_u8(value, 21, 25),
                    immediate: range_u16(value, 0, 15),
                };
                Some(Instruction::LUI(vars))
            },
            Some(OpCode::LW) => {
                let vars = LWVars {
                    base: range_u8(value, 21, 25),
                    rt: range_u8(value, 16, 20),
                    offset: range_u16(value, 0, 15),
                };
                Some(Instruction::LW(vars))
            },
            Some(OpCode::MTC0) => {
                let vars = MTC0Vars {
                    rt: range_u8(value, 16, 20),
                    rd: range_u8(value, 11, 15),
                    sel: range_u8(value, 0, 3),
                };
                Some(Instruction::MTC0(vars))
            },
            Some(OpCode::ORI) => {
                let vars = ORIVars {
                    rs: range_u8(value, 21, 25),
                    rt: range_u8(value, 16, 20),
                    immediate: range_u16(value, 0, 15),
                };
                Some(Instruction::ORI(vars))
            },
            None => None,
        }
    }
}

} // verus!
