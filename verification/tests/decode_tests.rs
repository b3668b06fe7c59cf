use riscv_core::op::{Note, Op};

#[test]
fn decode_canonical_nop() {
    // addi x0, x0, 0
    assert_eq!(Op::new(0x0000_0013), Op::Addi { rd: 0, rs1: 0, imm: 0 });
}

#[test]
fn decode_add() {
    // add a0, a1, a2
    assert_eq!(Op::new(0x00c5_8533), Op::Add { rd: 10, rs1: 11, rs2: 12 });
}

#[test]
fn decode_compressed_li() {
    // c.li a0, 1 expands to addi a0, x0, 1
    assert_eq!(Op::new(0x4505), Op::Addi { rd: 10, rs1: 0, imm: 1 });
}

#[test]
fn decode_compressed_ret() {
    // c.jr ra expands to jalr x0, ra, 0
    assert_eq!(Op::new(0x8082), Op::Jalr { rd: 0, rs1: 1, offset: 0 });
}

#[test]
fn decode_slli() {
    // slli a0, a1, 3
    assert_eq!(Op::new(0x0035_9513), Op::Slli { rd: 10, rs1: 11, shamt: 3 });
}

#[test]
fn decode_srai() {
    // srai a0, a1, 4
    assert_eq!(Op::new(0x4045_d513), Op::Srai { rd: 10, rs1: 11, shamt: 4 });
}

#[test]
fn decode_negative_immediates() {
    // addi a0, a1, -1 (imm12 = 0xfff)
    assert_eq!(Op::new(0xfff5_8513), Op::Addi { rd: 10, rs1: 11, imm: -1 });
    // beq x0, x0, -4 (B-imm of -4)
    assert_eq!(Op::new(0xfe00_0ee3), Op::Beq { rs1: 0, rs2: 0, offset: -4 });
}

#[test]
fn decode_lui_auipc() {
    // lui a0, 0x12345
    assert_eq!(Op::new(0x1234_5537), Op::Lui { rd: 10, imm: 0x1234_5000 });
    // auipc ra, 0x12345
    assert_eq!(Op::new(0x1234_5097), Op::Auipc { rd: 1, imm: 0x1234_5000 });
    // lui with a negative (bit-31) immediate sign-extends
    assert_eq!(Op::new(0x8000_0537), Op::Lui { rd: 10, imm: -0x8000_0000 });
}

#[test]
fn decode_loads_stores() {
    // lw a0, 8(sp)
    assert_eq!(Op::new(0x0081_2503), Op::Lw { rd: 10, rs1: 2, offset: 8 });
    // sd a0, 0(sp)
    assert_eq!(Op::new(0x00a1_3023), Op::Sd { rs1: 2, rs2: 10, offset: 0 });
}

#[test]
fn decode_jal() {
    // jal ra, 8
    assert_eq!(Op::new(0x0080_00ef), Op::Jal { rd: 1, offset: 8 });
}

#[test]
fn decode_m_extension() {
    // mul a0, a1, a2
    assert_eq!(Op::new(0x02c5_8533), Op::Mul { rd: 10, rs1: 11, rs2: 12 });
    // divw a0, a1, a2
    assert_eq!(Op::new(0x02c5_c53b), Op::Divw { rd: 10, rs1: 11, rs2: 12 });
}

#[test]
fn decode_misc() {
    assert_eq!(Op::new(0x0000_000f), Op::Fence);
    assert_eq!(Op::new(0x0000_0073), Op::Ecall);
    assert_eq!(Op::new(0x0010_0073), Op::Ebreak);
    // a csr access is not implemented: it falls into the 0x73 sink
    assert_eq!(
        Op::new(0x0020_0073),
        Op::Unimplemented { inst: 0x0020_0073, note: Note::UnknownOpcode(0x73) }
    );
}

#[test]
fn decode_unknown_opcode() {
    // a floating-point load (opcode 0x07)
    assert_eq!(
        Op::new(0x0000_0007),
        Op::Unimplemented { inst: 0x0000_0007, note: Note::UnknownOpcode(0x07) }
    );
}

#[test]
fn decode_jalr_bad_funct3() {
    // jalr-opcode word with funct3 == 1
    assert_eq!(
        Op::new(0x0000_1067),
        Op::Unimplemented { inst: 0x0000_1067, note: Note::JalrFunct3(1) }
    );
}

#[test]
fn decode_reserved_compressed() {
    // c.addi4spn with imm == 0 (the all-zero halfword)
    assert_eq!(
        Op::new(0x0000),
        Op::Unimplemented { inst: 0x0000, note: Note::CAddi4spnZero }
    );
    // c.lui with imm == 0
    assert_eq!(Op::new(0x6081), Op::Unimplemented { inst: 0x6081, note: Note::CLuiZero });
    // c.addiw with rd == 0
    assert_eq!(Op::new(0x2001), Op::Unimplemented { inst: 0x2001, note: Note::CAddiwZeroRd });
    // c.lwsp with rd == 0
    assert_eq!(Op::new(0x4002), Op::Unimplemented { inst: 0x4002, note: Note::CLwspZeroRd });
    // c.ldsp with rd == 0
    assert_eq!(Op::new(0x6002), Op::Unimplemented { inst: 0x6002, note: Note::CLdspZeroRd });
    // c.jr with rd == 0
    assert_eq!(Op::new(0x8002), Op::Unimplemented { inst: 0x8002, note: Note::CJrZeroRd });
    // c.addi16sp with imm == 0
    assert_eq!(Op::new(0x6101), Op::Unimplemented { inst: 0x6101, note: Note::CAddi16spZero });
}

#[test]
fn decode_compressed_expansion() {
    // c.addi16sp sp, 16: q1 f3=3 rd=2, imm bits: 16 -> bit4 (inst bit 6)
    assert_eq!(Op::new(0x6141), Op::Addi { rd: 2, rs1: 2, imm: 16 });
    // c.mv a0, a1: q2 f3=4 bit12=0 rd=10 rs2=11
    assert_eq!(Op::new(0x852e), Op::Add { rd: 10, rs1: 0, rs2: 11 });
    // c.add a0, a1: q2 f3=4 bit12=1
    assert_eq!(Op::new(0x952e), Op::Add { rd: 10, rs1: 10, rs2: 11 });
    // c.ebreak
    assert_eq!(Op::new(0x9002), Op::Ebreak);
    // c.jalr a0
    assert_eq!(Op::new(0x9502), Op::Jalr { rd: 1, rs1: 10, offset: 0 });
    // c.beqz a0, 8: q1 f3=6, rs1' = a0 (bits 9:7 = 2), imm 8 -> inst bit 10
    assert_eq!(Op::new(0xc501), Op::Beq { rs1: 10, rs2: 0, offset: 8 });
    // c.j 8: q1 f3=5
    assert_eq!(Op::new(0xa021), Op::Jal { rd: 0, offset: 8 });
    // compressed floating-point forms are unimplemented
    assert_eq!(Op::new(0x2000), Op::Unimplemented { inst: 0x2000, note: Note::CFld });
}

#[test]
fn decode_compressed_primed_registers() {
    // c.sub s0, s1: q1 f3=4 funct2=3 bit12=0 rd'=s0(0) rs2'=s1(1)
    assert_eq!(Op::new(0x8c05), Op::Sub { rd: 8, rs1: 8, rs2: 9 });
    // c.and a2, a3: rd' = 4 (a2 = x12), rs2' = 5 (a3 = x13)
    assert_eq!(Op::new(0x8e75), Op::And { rd: 12, rs1: 12, rs2: 13 });
}

#[test]
fn decode_stack_pointer_forms() {
    // c.lwsp a0, 8(sp)
    assert_eq!(Op::new(0x4522), Op::Lw { rd: 10, rs1: 2, offset: 8 });
    // c.sdsp a0, 16(sp)
    assert_eq!(Op::new(0xe82a), Op::Sd { rs1: 2, rs2: 10, offset: 16 });
}

#[test]
fn decode_word_shifts() {
    // srliw a0, a1, 3
    assert_eq!(Op::new(0x0035_d51b), Op::Srliw { rd: 10, rs1: 11, shamt: 3 });
    // sraiw a0, a1, 3 (funct7 = 0x20)
    assert_eq!(Op::new(0x4035_d51b), Op::Sraiw { rd: 10, rs1: 11, shamt: 3 });
}
