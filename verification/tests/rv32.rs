use uarch_emu::rv32::encoding::sext32;
use uarch_emu::rv32::{
    DecodeError, RvALUOp, RvBranchOp, RvEncoding, RvEncodingFormat, RvInstr, RvOpcode, RvReg,
    RvWidth,
};

fn decode(word: u32) -> Result<RvInstr, DecodeError> {
    RvEncoding(word).decode()
}

fn r_type(f7: u32, rs2: u32, rs1: u32, f3: u32, rd: u32, opcode: u32) -> u32 {
    (f7 << 25) | (rs2 << 20) | (rs1 << 15) | (f3 << 12) | (rd << 7) | opcode
}

fn i_type(imm: i32, rs1: u32, f3: u32, rd: u32, opcode: u32) -> u32 {
    (((imm as u32) & 0xfff) << 20) | (rs1 << 15) | (f3 << 12) | (rd << 7) | opcode
}

fn s_type(imm: i32, rs2: u32, rs1: u32, f3: u32, opcode: u32) -> u32 {
    let imm = imm as u32;
    (((imm >> 5) & 0x7f) << 25) | (rs2 << 20) | (rs1 << 15) | (f3 << 12) | ((imm & 0x1f) << 7)
        | opcode
}

fn b_type(imm: i32, rs2: u32, rs1: u32, f3: u32) -> u32 {
    let imm = imm as u32;
    (((imm >> 12) & 1) << 31) | (((imm >> 5) & 0x3f) << 25) | (rs2 << 20) | (rs1 << 15)
        | (f3 << 12) | (((imm >> 1) & 0xf) << 8) | (((imm >> 11) & 1) << 7) | 0x63
}

fn j_type(imm: i32, rd: u32) -> u32 {
    let imm = imm as u32;
    (((imm >> 20) & 1) << 31) | (((imm >> 1) & 0x3ff) << 21) | (((imm >> 11) & 1) << 20)
        | (((imm >> 12) & 0xff) << 12) | (rd << 7) | 0x6f
}

#[test]
fn fields_are_cut_out_of_the_word() {
    // add x6, x6, x5
    let enc = RvEncoding(0x0053_0333);
    assert_eq!(enc.opcode(), Some(RvOpcode::OP));
    assert_eq!(enc.rd(), RvReg(6));
    assert_eq!(enc.f3(), 0);
    assert_eq!(enc.rs1(), RvReg(6));
    assert_eq!(enc.rs2(), RvReg(5));
    assert_eq!(enc.f7(), 0);

    let ones = RvEncoding(0xffff_ffff);
    assert_eq!(ones.opcode(), None);
    assert_eq!(ones.rd(), RvReg(31));
    assert_eq!(ones.f3(), 7);
    assert_eq!(ones.rs1(), RvReg(31));
    assert_eq!(ones.rs2(), RvReg(31));
    assert_eq!(ones.f7(), 0x7f);
    assert_eq!(ones.uimm(), 0xffff_f000);

    let zero = RvEncoding(0);
    assert_eq!(zero.opcode(), Some(RvOpcode::LOAD));
    assert_eq!(zero.rd(), RvReg(0));
    assert_eq!(zero.uimm(), 0);
}

#[test]
fn each_field_has_its_own_bits() {
    assert_eq!(RvEncoding(0x0000_007c).opcode(), None);
    assert_eq!(RvEncoding(0x0000_0078).opcode(), Some(RvOpcode::CUSTOM_3));
    assert_eq!(RvEncoding(0x0000_0f80).rd(), RvReg(31));
    assert_eq!(RvEncoding(!0x0000_0f80).rd(), RvReg(0));
    assert_eq!(RvEncoding(0x0000_7000).f3(), 7);
    assert_eq!(RvEncoding(!0x0000_7000).f3(), 0);
    assert_eq!(RvEncoding(0x000f_8000).rs1(), RvReg(31));
    assert_eq!(RvEncoding(!0x000f_8000).rs1(), RvReg(0));
    assert_eq!(RvEncoding(0x01f0_0000).rs2(), RvReg(31));
    assert_eq!(RvEncoding(!0x01f0_0000).rs2(), RvReg(0));
    assert_eq!(RvEncoding(0xfe00_0000).f7(), 0x7f);
    assert_eq!(RvEncoding(!0xfe00_0000).f7(), 0);
    assert_eq!(RvEncoding(0x0000_0fff).uimm(), 0);
}

#[test]
fn every_opcode_has_its_number() {
    let table = [
        (0b00000, RvOpcode::LOAD),
        (0b00001, RvOpcode::LOAD_FP),
        (0b00010, RvOpcode::CUSTOM_0),
        (0b00011, RvOpcode::MISC_MEM),
        (0b00100, RvOpcode::OP_IMM),
        (0b00101, RvOpcode::AUIPC),
        (0b00110, RvOpcode::OP_IMM_32),
        (0b01000, RvOpcode::STORE),
        (0b01001, RvOpcode::STORE_FP),
        (0b01010, RvOpcode::CUSTOM_1),
        (0b01011, RvOpcode::AMO),
        (0b01100, RvOpcode::OP),
        (0b01101, RvOpcode::LUI),
        (0b01110, RvOpcode::OP_32),
        (0b10000, RvOpcode::MADD),
        (0b10001, RvOpcode::MSUB),
        (0b10010, RvOpcode::NMSUB),
        (0b10011, RvOpcode::NMADD),
        (0b10100, RvOpcode::OP_FP),
        (0b10101, RvOpcode::RES_0),
        (0b10110, RvOpcode::CUSTOM_2),
        (0b11000, RvOpcode::BRANCH),
        (0b11001, RvOpcode::JALR),
        (0b11010, RvOpcode::RES_1),
        (0b11011, RvOpcode::JAL),
        (0b11100, RvOpcode::SYSTEM),
        (0b11101, RvOpcode::RES_2),
        (0b11110, RvOpcode::CUSTOM_3),
    ];
    for (code, opcode) in table {
        assert_eq!(RvOpcode::from_bits(code), Some(opcode));
        assert_eq!(RvEncoding((code << 2) | 0b11).opcode(), Some(opcode));
    }
    for code in [0b00111, 0b01111, 0b10111, 0b11111, 32, 64, 0xffff_ffff] {
        assert_eq!(RvOpcode::from_bits(code), None);
    }
}

#[test]
fn format_goes_by_the_opcode() {
    assert_eq!(RvEncoding(0x33).fmt(), Some(RvEncodingFormat::R));
    assert_eq!(RvEncoding(0x6f).fmt(), Some(RvEncodingFormat::J));
    assert_eq!(RvEncoding(0x23).fmt(), Some(RvEncodingFormat::S));
    assert_eq!(RvEncoding(0x63).fmt(), Some(RvEncodingFormat::B));
    assert_eq!(RvEncoding(0x17).fmt(), Some(RvEncodingFormat::U));
    assert_eq!(RvEncoding(0x37).fmt(), Some(RvEncodingFormat::U));
    assert_eq!(RvEncoding(0x0f).fmt(), Some(RvEncodingFormat::I));
    assert_eq!(RvEncoding(0x13).fmt(), Some(RvEncodingFormat::I));
    assert_eq!(RvEncoding(0x67).fmt(), Some(RvEncodingFormat::I));
    assert_eq!(RvEncoding(0x73).fmt(), Some(RvEncodingFormat::I));
    assert_eq!(RvEncoding(0x03).fmt(), Some(RvEncodingFormat::I));
    // amo, floating point and the reserved opcodes have no format here
    assert_eq!(RvEncoding(0x2f).fmt(), None);
    assert_eq!(RvEncoding(0x07).fmt(), None);
    assert_eq!(RvEncoding(0x7f).fmt(), None);
}

#[test]
fn sign_extension_of_a_field() {
    assert_eq!(sext32(0x7ff, 12), 2047);
    assert_eq!(sext32(0x800, 12), -2048);
    assert_eq!(sext32(0xfff, 12), -1);
    assert_eq!(sext32(0xffff_f001, 12), 1);
    assert_eq!(sext32(0x1000, 13), -4096);
    assert_eq!(sext32(0x0ffe, 13), 4094);
    assert_eq!(sext32(0x10_0000, 21), -1048576);
    assert_eq!(sext32(1, 1), -1);
    assert_eq!(sext32(0, 1), 0);
    assert_eq!(sext32(0xff, 8), -1);
    assert_eq!(sext32(0x8000, 16), -32768);
    assert_eq!(sext32(0x8000_0000, 32), i32::MIN);
    assert_eq!(sext32(0x7fff_ffff, 32), i32::MAX);
}

#[test]
fn immediates_of_the_four_formats() {
    // I: addi x5, x0, -1
    assert_eq!(RvEncoding(0xfff0_0293).simm(), Some(-1));
    assert_eq!(RvEncoding(i_type(2047, 0, 0, 5, 0x13)).simm(), Some(2047));
    assert_eq!(RvEncoding(i_type(-2048, 0, 0, 5, 0x13)).simm(), Some(-2048));
    // S: sw x10, 16(x2)
    assert_eq!(RvEncoding(0x00a1_2823).simm(), Some(16));
    assert_eq!(RvEncoding(s_type(-1, 31, 31, 2, 0x23)).simm(), Some(-1));
    assert_eq!(RvEncoding(s_type(-2048, 0, 0, 2, 0x23)).simm(), Some(-2048));
    assert_eq!(RvEncoding(s_type(0x7e5, 0, 0, 2, 0x23)).simm(), Some(0x7e5));
    // B: blt x5, x6, +8
    assert_eq!(RvEncoding(0x0062_c463).simm(), Some(8));
    assert_eq!(RvEncoding(b_type(-4096, 0, 0, 0)).simm(), Some(-4096));
    assert_eq!(RvEncoding(b_type(4094, 0, 0, 0)).simm(), Some(4094));
    assert_eq!(RvEncoding(b_type(2048, 0, 0, 0)).simm(), Some(2048));
    assert_eq!(RvEncoding(b_type(-2, 31, 31, 7)).simm(), Some(-2));
    // J: jal x1, +12
    assert_eq!(RvEncoding(0x00c0_00ef).simm(), Some(12));
    assert_eq!(RvEncoding(j_type(-1048576, 0)).simm(), Some(-1048576));
    assert_eq!(RvEncoding(j_type(1048574, 0)).simm(), Some(1048574));
    assert_eq!(RvEncoding(j_type(2048, 0)).simm(), Some(2048));
    assert_eq!(RvEncoding(j_type(0xff000, 0)).simm(), Some(0xff000));
    assert_eq!(RvEncoding(j_type(-2, 31)).simm(), Some(-2));
    // R and U words have no signed immediate
    assert_eq!(RvEncoding(0x0053_0333).simm(), None);
    assert_eq!(RvEncoding(0x1234_52b7).simm(), None);
    assert_eq!(RvEncoding(0xffff_ffff).simm(), None);
}

#[test]
fn upper_immediate_stays_in_place() {
    // lui x5, 0x12345
    assert_eq!(RvEncoding(0x1234_52b7).uimm(), 0x1234_5000);
    assert_eq!(decode(0x1234_52b7), Ok(RvInstr::Lui(RvReg(5), 0x1234_5000)));
    // auipc x7, 0xfffff
    assert_eq!(decode(0xffff_f397), Ok(RvInstr::Auipc(RvReg(7), 0xffff_f000)));
}

#[test]
fn decodes_register_register_operations() {
    let table = [
        (0, 0x00, RvALUOp::Add),
        (0, 0x20, RvALUOp::Sub),
        (1, 0x00, RvALUOp::Sll),
        (2, 0x00, RvALUOp::Slt),
        (3, 0x00, RvALUOp::Sltu),
        (4, 0x00, RvALUOp::Xor),
        (5, 0x00, RvALUOp::Srl),
        (5, 0x20, RvALUOp::Sra),
        (6, 0x00, RvALUOp::Or),
        (7, 0x00, RvALUOp::And),
    ];
    for (f3, f7, op) in table {
        assert_eq!(
            decode(r_type(f7, 3, 2, f3, 1, 0x33)),
            Ok(RvInstr::Op(RvReg(1), RvReg(2), RvReg(3), op))
        );
        assert_eq!(RvALUOp::from_funct(f3, f7), Some(op));
    }
    assert_eq!(decode(0x0053_0333), Ok(RvInstr::Op(RvReg(6), RvReg(6), RvReg(5), RvALUOp::Add)));
}

#[test]
fn decodes_register_immediate_operations() {
    let table = [
        (0, RvALUOp::Add),
        (2, RvALUOp::Slt),
        (3, RvALUOp::Sltu),
        (4, RvALUOp::Xor),
        (6, RvALUOp::Or),
        (7, RvALUOp::And),
    ];
    for (f3, op) in table {
        assert_eq!(
            decode(i_type(-5, 2, f3, 1, 0x13)),
            Ok(RvInstr::OpImm(RvReg(1), RvReg(2), -5, op))
        );
        // with these operations every bit of the immediate is data, funct7 is not looked at
        assert_eq!(
            decode(i_type(0x400, 2, f3, 1, 0x13)),
            Ok(RvInstr::OpImm(RvReg(1), RvReg(2), 0x400, op))
        );
    }
    assert_eq!(
        decode(0x6782_8293),
        Ok(RvInstr::OpImm(RvReg(5), RvReg(5), 0x678, RvALUOp::Add))
    );
}

#[test]
fn decodes_shifts_by_an_immediate() {
    // slli x8, x6, 1
    assert_eq!(decode(0x0013_1413), Ok(RvInstr::OpImm(RvReg(8), RvReg(6), 1, RvALUOp::Sll)));
    // srli x7, x5, 2
    assert_eq!(decode(0x0022_d393), Ok(RvInstr::OpImm(RvReg(7), RvReg(5), 2, RvALUOp::Srl)));
    // srai x6, x5, 2: bit 30 selects the arithmetic shift, the amount is 2 and not 0x402
    assert_eq!(decode(0x4022_d313), Ok(RvInstr::OpImm(RvReg(6), RvReg(5), 2, RvALUOp::Sra)));
    // srai x1, x2, 31
    assert_eq!(
        decode(r_type(0x20, 31, 2, 5, 1, 0x13)),
        Ok(RvInstr::OpImm(RvReg(1), RvReg(2), 31, RvALUOp::Sra))
    );
}

#[test]
fn decodes_loads() {
    assert_eq!(
        decode(i_type(-4, 2, 0, 1, 0x03)),
        Ok(RvInstr::Load(RvReg(1), RvReg(2), -4, RvWidth::Byte))
    );
    assert_eq!(
        decode(i_type(6, 2, 1, 1, 0x03)),
        Ok(RvInstr::Load(RvReg(1), RvReg(2), 6, RvWidth::Half))
    );
    // lw x11, 16(x2)
    assert_eq!(decode(0x0101_2583), Ok(RvInstr::Load(RvReg(11), RvReg(2), 16, RvWidth::Word)));
    assert_eq!(
        decode(i_type(-4, 2, 4, 1, 0x03)),
        Ok(RvInstr::LoadU(RvReg(1), RvReg(2), -4, RvWidth::Byte))
    );
    assert_eq!(
        decode(i_type(2047, 2, 5, 1, 0x03)),
        Ok(RvInstr::LoadU(RvReg(1), RvReg(2), 2047, RvWidth::Half))
    );
}

#[test]
fn decodes_stores() {
    assert_eq!(
        decode(s_type(-1, 3, 2, 0, 0x23)),
        Ok(RvInstr::Store(RvReg(2), RvReg(3), -1, RvWidth::Byte))
    );
    assert_eq!(
        decode(s_type(2, 3, 2, 1, 0x23)),
        Ok(RvInstr::Store(RvReg(2), RvReg(3), 2, RvWidth::Half))
    );
    // sw x10, 16(x2)
    assert_eq!(decode(0x00a1_2823), Ok(RvInstr::Store(RvReg(2), RvReg(10), 16, RvWidth::Word)));
}

#[test]
fn decodes_branches() {
    let table = [
        (0, RvBranchOp::Eq),
        (1, RvBranchOp::Ne),
        (4, RvBranchOp::Lt),
        (5, RvBranchOp::Ge),
        (6, RvBranchOp::Ltu),
        (7, RvBranchOp::Geu),
    ];
    for (f3, op) in table {
        assert_eq!(
            decode(b_type(-16, 6, 5, f3)),
            Ok(RvInstr::Branch(RvReg(5), RvReg(6), -16, op))
        );
        assert_eq!(RvBranchOp::from_funct3(f3), Some(op));
    }
    // bltu x5, x6, +8
    assert_eq!(decode(0x0062_e463), Ok(RvInstr::Branch(RvReg(5), RvReg(6), 8, RvBranchOp::Ltu)));
}

#[test]
fn decodes_jumps() {
    // jal x1, +12
    assert_eq!(decode(0x00c0_00ef), Ok(RvInstr::Jal(RvReg(1), 12)));
    assert_eq!(decode(j_type(-8, 0)), Ok(RvInstr::Jal(RvReg(0), -8)));
    // jalr x0, x1, 0
    assert_eq!(decode(0x0000_8067), Ok(RvInstr::Jalr(RvReg(0), RvReg(1), 0)));
    assert_eq!(decode(i_type(-3, 7, 0, 9, 0x67)), Ok(RvInstr::Jalr(RvReg(9), RvReg(7), -3)));
}

#[test]
fn decodes_fences_and_system_instructions() {
    // fence iorw, iorw
    assert_eq!(decode(0x0ff0_000f), Ok(RvInstr::Fence));
    // fence.i
    assert_eq!(decode(0x0000_100f), Ok(RvInstr::Fence));
    assert_eq!(decode(0x0000_0073), Ok(RvInstr::Ecall));
    assert_eq!(decode(0x0010_0073), Ok(RvInstr::Ebreak));
}

#[test]
fn rejects_compressed_instructions() {
    assert_eq!(decode(0x0000_0000), Err(DecodeError::Compressed));
    assert_eq!(decode(0x0000_0001), Err(DecodeError::Compressed));
    assert_eq!(decode(0x0000_0002), Err(DecodeError::Compressed));
    // addi x5, x0, -1 with bit 0 cleared
    assert_eq!(decode(0xfff0_0292), Err(DecodeError::Compressed));
}

#[test]
fn rejects_opcodes_outside_the_base_set() {
    for code in 0..32u32 {
        let word = (code << 2) | 0b11;
        let known = [0b00000, 0b00011, 0b00100, 0b00101, 0b01000, 0b01100, 0b01101, 0b11000,
            0b11001, 0b11011, 0b11100];
        if !known.contains(&code) {
            assert_eq!(decode(word), Err(DecodeError::UndefinedOpcode));
        } else {
            assert_ne!(decode(word), Err(DecodeError::UndefinedOpcode));
        }
    }
    assert_eq!(decode(0xffff_ffff), Err(DecodeError::UndefinedOpcode));
}

#[test]
fn rejects_reserved_minor_opcodes() {
    // branch funct3 010 and 011
    assert_eq!(decode(b_type(8, 6, 5, 2)), Err(DecodeError::ReservedFunct));
    assert_eq!(decode(b_type(8, 6, 5, 3)), Err(DecodeError::ReservedFunct));
    // loads: 011, 110, 111
    for f3 in [3, 6, 7] {
        assert_eq!(decode(i_type(0, 2, f3, 1, 0x03)), Err(DecodeError::ReservedFunct));
    }
    // stores beyond sw
    for f3 in 3..8 {
        assert_eq!(decode(s_type(0, 3, 2, f3, 0x23)), Err(DecodeError::ReservedFunct));
    }
    // jalr with funct3 other than 000
    for f3 in 1..8 {
        assert_eq!(decode(i_type(0, 1, f3, 0, 0x67)), Err(DecodeError::ReservedFunct));
    }
    // the multiply extension, and sub-like funct7 where there is no such operation
    assert_eq!(decode(r_type(0x01, 3, 2, 0, 1, 0x33)), Err(DecodeError::ReservedFunct));
    assert_eq!(decode(r_type(0x20, 3, 2, 1, 1, 0x33)), Err(DecodeError::ReservedFunct));
    assert_eq!(decode(r_type(0x7f, 3, 2, 7, 1, 0x33)), Err(DecodeError::ReservedFunct));
    // shifts by an immediate with a funct7 that selects nothing
    assert_eq!(decode(r_type(0x20, 1, 2, 1, 1, 0x13)), Err(DecodeError::ReservedFunct));
    assert_eq!(decode(r_type(0x40, 1, 2, 5, 1, 0x13)), Err(DecodeError::ReservedFunct));
    assert_eq!(decode(r_type(0x01, 1, 2, 5, 1, 0x13)), Err(DecodeError::ReservedFunct));
    // fences beyond fence.i
    assert_eq!(decode(0x0000_200f), Err(DecodeError::ReservedFunct));
    // csrrw x1, mstatus, x2 and other system words that are not ecall or ebreak
    assert_eq!(decode(0x3001_10f3), Err(DecodeError::ReservedFunct));
    assert_eq!(decode(0x0020_0073), Err(DecodeError::ReservedFunct));
    assert_eq!(decode(0x0000_00f3), Err(DecodeError::ReservedFunct));
}

#[test]
fn decoding_is_a_function_of_the_word() {
    for word in [0x1234_52b7u32, 0xfff0_0293, 0x0000_0000, 0xffff_ffff, 0x0062_c463, 0x3001_10f3] {
        assert_eq!(RvEncoding(word).decode(), RvEncoding(word).decode());
    }
}

#[test]
fn decoded_registers_are_below_32() {
    let ok = |r: RvReg| r.0 < 32;
    let mut word: u32 = 0x0000_0003;
    for _ in 0..20000 {
        // a multiplicative walk over the words that end in 11
        word = word.wrapping_mul(1664525).wrapping_add(1013904223) | 0b11;
        match RvEncoding(word).decode() {
            Ok(RvInstr::Op(rd, rs1, rs2, _)) => assert!(ok(rd) && ok(rs1) && ok(rs2)),
            Ok(RvInstr::OpImm(rd, rs1, _, _)) => assert!(ok(rd) && ok(rs1)),
            Ok(RvInstr::Load(rd, rs1, _, _)) => assert!(ok(rd) && ok(rs1)),
            Ok(RvInstr::LoadU(rd, rs1, _, w)) => assert!(ok(rd) && ok(rs1) && w != RvWidth::Word),
            Ok(RvInstr::Jalr(rd, rs1, _)) => assert!(ok(rd) && ok(rs1)),
            Ok(RvInstr::Lui(rd, uimm)) => assert!(ok(rd) && uimm & 0xfff == 0),
            Ok(RvInstr::Auipc(rd, uimm)) => assert!(ok(rd) && uimm & 0xfff == 0),
            Ok(RvInstr::Store(rs1, rs2, _, _)) => assert!(ok(rs1) && ok(rs2)),
            Ok(RvInstr::Jal(rd, imm)) => assert!(ok(rd) && imm % 2 == 0),
            Ok(RvInstr::Branch(rs1, rs2, imm, _)) => assert!(ok(rs1) && ok(rs2) && imm % 2 == 0),
            Ok(RvInstr::Fence) | Ok(RvInstr::Ecall) | Ok(RvInstr::Ebreak) => {},
            Err(_) => {},
        }
    }
}

#[test]
fn widths_have_sizes() {
    assert_eq!(RvWidth::Byte.size(), 1);
    assert_eq!(RvWidth::Half.size(), 2);
    assert_eq!(RvWidth::Word.size(), 4);
    assert_eq!(RvWidth::from_funct3(0), Some(RvWidth::Byte));
    assert_eq!(RvWidth::from_funct3(1), Some(RvWidth::Half));
    assert_eq!(RvWidth::from_funct3(2), Some(RvWidth::Word));
    assert_eq!(RvWidth::from_funct3(3), None);
    assert_eq!(RvBranchOp::from_funct3(2), None);
    assert_eq!(RvBranchOp::from_funct3(3), None);
    assert_eq!(RvBranchOp::from_funct3(8), None);
    assert_eq!(RvALUOp::from_funct(0, 1), None);
    assert_eq!(RvALUOp::from_funct(8, 0), None);
}
