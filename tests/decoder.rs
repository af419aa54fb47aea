use mipsdis::{
    disassemble, instruction_format, range_u16, range_u32, range_u8, unknown_format, word_at, word_format,
    ANDIVars, BEQLVars, Instruction, LUIVars, LWVars, MTC0Vars, OpCode, ORIVars,
};

#[test]
fn andi_word_decodes_and_formats() {
    let i = Instruction::from_u32(0x30A1_0005).unwrap();
    assert_eq!(i, Instruction::ANDI(ANDIVars { rs: 5, rt: 1, immediate: 5 }));
    assert_eq!(instruction_format(&i), "andi r1, r5, 0x5");
    assert_eq!(i.to_string(), "andi r1, r5, 0x5");
}

#[test]
fn lui_word_decodes_and_formats() {
    // the LUI layout reads rt from bits 21..=25
    let i = Instruction::from_u32(0x3C20_0008).unwrap();
    assert_eq!(i, Instruction::LUI(LUIVars { rt: 1, immediate: 8 }));
    assert_eq!(instruction_format(&i), "lui r1, 0x8");
}

#[test]
fn lui_ignores_bits_16_to_20() {
    let i = Instruction::from_u32(0x3C01_0008).unwrap();
    assert_eq!(i, Instruction::LUI(LUIVars { rt: 0, immediate: 8 }));
    assert_eq!(instruction_format(&i), "lui r0, 0x8");
}

#[test]
fn lw_word_decodes_and_formats() {
    let i = Instruction::from_u32(0x8C23_0010).unwrap();
    assert_eq!(i, Instruction::LW(LWVars { base: 1, rt: 3, offset: 16 }));
    assert_eq!(instruction_format(&i), "lw r3, 16(1)");
}

#[test]
fn unmodeled_opcode_yields_none_and_fallback() {
    assert_eq!(Instruction::from_u32(0x0000_0020), None);
    assert_eq!(unknown_format(0x0000_0020), "000000 0x0");
    assert_eq!(word_format(0x0000_0020), "000000 0x0");
}

#[test]
fn fallback_shows_binary_and_hex() {
    // opcode 0x2b (SW) is not modeled
    let w: u32 = 0x2b << 26;
    assert_eq!(Instruction::from_u32(w), None);
    assert_eq!(word_format(w), "101011 0x2b");
    assert_eq!(unknown_format(0xffff_ffff), "111111 0x3f");
}

#[test]
fn beql_negative_field_gives_positive_offset() {
    // opcode 0x14, rs = 2, rt = 3, offset field 0xfffe (a backward branch of -2 words)
    let w: u32 = (0x14 << 26) | (2 << 21) | (3 << 16) | 0xfffe;
    let i = Instruction::from_u32(w).unwrap();
    assert_eq!(i, Instruction::BEQL(BEQLVars { rs: 2, rt: 3, offset: 0xfffe << 2 }));
    if let Instruction::BEQL(v) = i {
        assert!(v.offset > 0);
        assert_eq!(v.offset, 0x3fff8);
    }
    assert_eq!(instruction_format(&i), "beql r2, r3, 0x3fff8");
}

#[test]
fn mtc0_and_ori_decode_and_format() {
    let w: u32 = (0x10 << 26) | (0x1f << 21) | (7 << 16) | (12 << 11) | (0x55 << 4) | 0xb;
    let i = Instruction::from_u32(w).unwrap();
    assert_eq!(i, Instruction::MTC0(MTC0Vars { rt: 7, rd: 12, sel: 0xb }));
    assert_eq!(instruction_format(&i), "mtc0 r7, c12, 0xb");

    let w: u32 = (0xd << 26) | (31 << 21) | (30 << 16) | 0xbeef;
    let i = Instruction::from_u32(w).unwrap();
    assert_eq!(i, Instruction::ORI(ORIVars { rs: 31, rt: 30, immediate: 0xbeef }));
    assert_eq!(instruction_format(&i), "ori r30, r31, 0xbeef");
}

#[test]
fn zero_fields_format() {
    let i = Instruction::ANDI(ANDIVars { rs: 0, rt: 0, immediate: 0 });
    assert_eq!(instruction_format(&i), "andi r0, r0, 0x0");
    let i = Instruction::LW(LWVars { base: 31, rt: 0, offset: 65535 });
    assert_eq!(instruction_format(&i), "lw r0, 65535(31)");
    let i = Instruction::BEQL(BEQLVars { rs: 1, rt: 2, offset: -4 });
    assert_eq!(instruction_format(&i), "beql r1, r2, 0xfffffffc");
}

#[test]
fn decode_is_deterministic() {
    for w in [0u32, 0x30A1_0005, 0x5000_fffe, 0x8C23_0010, 0xffff_ffff, 0x4000_5803] {
        assert_eq!(Instruction::from_u32(w), Instruction::from_u32(w));
        assert_eq!(word_format(w), word_format(w));
    }
}

#[test]
fn only_the_six_opcodes_decode() {
    let known = [0xcu32, 0x14, 0xf, 0x23, 0x10, 0xd];
    for op in 0u32..64 {
        let w = (op << 26) | 0x0123_4567 & 0x03ff_ffff;
        assert_eq!(Instruction::from_u32(w).is_some(), known.contains(&op), "opcode {:#x}", op);
        assert_eq!(OpCode::from_u8(op as u8).is_some(), known.contains(&op));
    }
}

#[test]
fn fields_put_back_rebuild_the_word() {
    let w: u32 = 0x30A1_0005 | 0x03ff_ffff & 0x5a5a_5a5a;
    match Instruction::from_u32(w).unwrap() {
        Instruction::ANDI(v) => {
            let back = (w & 0xfc00_0000) | ((v.rs as u32) << 21) | ((v.rt as u32) << 16) | v.immediate as u32;
            assert_eq!(back, w);
        }
        other => panic!("unexpected {:?}", other),
    }
    let w: u32 = (0x10 << 26) | 0x03ff_ffff & 0xa5a5_a5a5;
    match Instruction::from_u32(w).unwrap() {
        Instruction::MTC0(v) => {
            let back = (w & 0xfc00_0000)
                | (w & 0x03e0_0000)
                | ((v.rt as u32) << 16)
                | ((v.rd as u32) << 11)
                | (w & 0x7f0)
                | v.sel as u32;
            assert_eq!(back, w);
        }
        other => panic!("unexpected {:?}", other),
    }
}

#[test]
fn bit_range_extremes() {
    for w in [0u32, 1, 0x8000_0000, 0xdead_beef, 0xffff_ffff] {
        assert_eq!(range_u32(w, 0, 31), w);
        for b in 0..32u32 {
            let bit = range_u8(w, b, b);
            assert!(bit <= 1);
            assert_eq!(bit as u32, (w >> b) & 1);
        }
    }
}

#[test]
fn bit_ranges_of_a_word() {
    let w: u32 = 0x30A1_0005;
    assert_eq!(range_u8(w, 26, 31), 0xc);
    assert_eq!(range_u8(w, 21, 25), 5);
    assert_eq!(range_u8(w, 16, 20), 1);
    assert_eq!(range_u16(w, 0, 15), 5);
    assert_eq!(range_u16(0xffff_ffff, 16, 31), 0xffff);
    assert_eq!(range_u8(0xffff_ffff, 0, 7), 0xff);
    assert_eq!(range_u32(0x1234_5678, 4, 23), 0x34567);
}

#[test]
fn words_read_big_endian() {
    let bytes = [0x30u8, 0xA1, 0x00, 0x05, 0x3C, 0x01, 0x00, 0x08, 0x8C];
    assert_eq!(word_at(&bytes, 0), Some(0x30A1_0005));
    assert_eq!(word_at(&bytes, 1), Some(0x3C01_0008));
    assert_eq!(word_at(&bytes, 2), None);
    assert_eq!(word_at(&[], 0), None);
}

#[test]
fn listing_of_a_buffer() {
    let bytes = [
        0x30u8, 0xA1, 0x00, 0x05, 0x3C, 0x20, 0x00, 0x08, 0x8C, 0x23, 0x00, 0x10, 0x00, 0x00, 0x00, 0x20, 0x01,
    ];
    let lines = disassemble(&bytes, 100);
    assert_eq!(lines, vec!["andi r1, r5, 0x5", "lui r1, 0x8", "lw r3, 16(1)", "000000 0x0"]);
    let lines = disassemble(&bytes, 2);
    assert_eq!(lines, vec!["andi r1, r5, 0x5", "lui r1, 0x8"]);
    assert!(disassemble(&bytes, 0).is_empty());
    assert!(disassemble(&[], 5).is_empty());
}
