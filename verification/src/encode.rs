//! The assemble-by-table direction: a specification-level encoder from an
//! operation back to a 32-bit word, and the proof that decoding the encoded
//! word returns exactly the original operation. Together with the decoder's
//! contract this pins the instruction tables: no implemented operation can
//! decode from, or encode to, the wrong word.

use crate::bits::{imm_b_bits, imm_j_bits, imm_s_bits, lemma_field_bounds, sign_ext};
use crate::decode::decode;
use crate::op::{op_wf, Op};
use vstd::arithmetic::power2::{lemma2_to64, pow2};
use vstd::prelude::*;

verus! {

// ---------------------------------------------------------------------------
// Immediates as raw bit fields
// ---------------------------------------------------------------------------

/// The low 12 bits of a sign-extended I- or S-immediate.
pub open spec fn bits12(imm: i64) -> u32
    recommends
        -2048 <= imm < 2048,
{
    (if imm >= 0 {
        imm as int
    } else {
        imm + 4096
    }) as u32
}

/// The 13 bits of a branch offset (bit 0 is zero).
pub open spec fn bits13(offset: i64) -> u32
    recommends
        -4096 <= offset < 4096,
{
    (if offset >= 0 {
        offset as int
    } else {
        offset + 8192
    }) as u32
}

/// The 21 bits of a jump offset (bit 0 is zero).
pub open spec fn bits21(offset: i64) -> u32
    recommends
        -0x10_0000 <= offset < 0x10_0000,
{
    (if offset >= 0 {
        offset as int
    } else {
        offset + 0x20_0000
    }) as u32
}

/// The 32 bits of a U-immediate (the low 12 are zero).
pub open spec fn bits32(imm: i64) -> u32
    recommends
        -0x8000_0000 <= imm < 0x8000_0000,
{
    (if imm >= 0 {
        imm as int
    } else {
        imm + 0x1_0000_0000
    }) as u32
}

// ---------------------------------------------------------------------------
// Words by format
// ---------------------------------------------------------------------------

pub open spec fn enc_r_word(funct7: u32, rs2: u32, rs1: u32, funct3: u32, rd: u32, opcode: u32) -> u32 {
    (funct7 << 25) | (rs2 << 20) | (rs1 << 15) | (funct3 << 12) | (rd << 7) | opcode
}

pub open spec fn enc_i_word(imm12: u32, rs1: u32, funct3: u32, rd: u32, opcode: u32) -> u32 {
    (imm12 << 20) | (rs1 << 15) | (funct3 << 12) | (rd << 7) | opcode
}

pub open spec fn enc_s_word(imm12: u32, rs2: u32, rs1: u32, funct3: u32) -> u32 {
    ((imm12 >> 5) << 25) | (rs2 << 20) | (rs1 << 15) | (funct3 << 12) | ((imm12 & 0x1f) << 7)
        | 0x23
}

pub open spec fn enc_b_word(b13: u32, rs2: u32, rs1: u32, funct3: u32) -> u32 {
    (((b13 >> 12) & 1) << 31) | (((b13 >> 5) & 0x3f) << 25) | (rs2 << 20) | (rs1 << 15) | (funct3
        << 12) | (((b13 >> 1) & 0xf) << 8) | (((b13 >> 11) & 1) << 7) | 0x63
}

pub open spec fn enc_u_word(ubits: u32, rd: u32, opcode: u32) -> u32 {
    ubits | (rd << 7) | opcode
}

pub open spec fn enc_j_word(j21: u32, rd: u32) -> u32 {
    (((j21 >> 20) & 1) << 31) | (((j21 >> 1) & 0x3ff) << 21) | (((j21 >> 11) & 1) << 20) | (((j21
        >> 12) & 0xff) << 12) | (rd << 7) | 0x6f
}

// ---------------------------------------------------------------------------
// The table
// ---------------------------------------------------------------------------

/// The operation has a 32-bit encoding: well-formed fields and immediates
/// in the range and alignment their formats carry.
pub open spec fn encodable(op: Op) -> bool {
    op_wf(op) && match op {
        Op::Addi { imm, .. } => -2048 <= imm < 2048,
        Op::Slti { imm, .. } => -2048 <= imm < 2048,
        Op::Sltiu { imm, .. } => -2048 <= imm < 2048,
        Op::Xori { imm, .. } => -2048 <= imm < 2048,
        Op::Ori { imm, .. } => -2048 <= imm < 2048,
        Op::Andi { imm, .. } => -2048 <= imm < 2048,
        Op::Addiw { imm, .. } => -2048 <= imm < 2048,
        Op::Jalr { offset, .. } => -2048 <= offset < 2048,
        Op::Lb { offset, .. } => -2048 <= offset < 2048,
        Op::Lh { offset, .. } => -2048 <= offset < 2048,
        Op::Lw { offset, .. } => -2048 <= offset < 2048,
        Op::Ld { offset, .. } => -2048 <= offset < 2048,
        Op::Lbu { offset, .. } => -2048 <= offset < 2048,
        Op::Lhu { offset, .. } => -2048 <= offset < 2048,
        Op::Lwu { offset, .. } => -2048 <= offset < 2048,
        Op::Sb { offset, .. } => -2048 <= offset < 2048,
        Op::Sh { offset, .. } => -2048 <= offset < 2048,
        Op::Sw { offset, .. } => -2048 <= offset < 2048,
        Op::Sd { offset, .. } => -2048 <= offset < 2048,
        Op::Beq { offset, .. } => -4096 <= offset < 4096 && offset % 2 == 0,
        Op::Bne { offset, .. } => -4096 <= offset < 4096 && offset % 2 == 0,
        Op::Blt { offset, .. } => -4096 <= offset < 4096 && offset % 2 == 0,
        Op::Bge { offset, .. } => -4096 <= offset < 4096 && offset % 2 == 0,
        Op::Bltu { offset, .. } => -4096 <= offset < 4096 && offset % 2 == 0,
        Op::Bgeu { offset, .. } => -4096 <= offset < 4096 && offset % 2 == 0,
        Op::Jal { offset, .. } => -0x10_0000 <= offset < 0x10_0000 && offset % 2 == 0,
        Op::Lui { imm, .. } => -0x8000_0000 <= imm < 0x8000_0000 && imm % 4096 == 0,
        Op::Auipc { imm, .. } => -0x8000_0000 <= imm < 0x8000_0000 && imm % 4096 == 0,
        Op::Unimplemented { .. } => false,
        _ => true,
    }
}

/// The 32-bit encoding of an operation, by the ISA tables.
pub open spec fn encode(op: Op) -> u32
    recommends
        encodable(op),
{
    match op {
        Op::Add { rd, rs1, rs2 } => enc_r_word(0x00, rs2 as u32, rs1 as u32, 0x0, rd as u32, 0x33),
        Op::Sub { rd, rs1, rs2 } => enc_r_word(0x20, rs2 as u32, rs1 as u32, 0x0, rd as u32, 0x33),
        Op::Sll { rd, rs1, rs2 } => enc_r_word(0x00, rs2 as u32, rs1 as u32, 0x1, rd as u32, 0x33),
        Op::Slt { rd, rs1, rs2 } => enc_r_word(0x00, rs2 as u32, rs1 as u32, 0x2, rd as u32, 0x33),
        Op::Sltu { rd, rs1, rs2 } => enc_r_word(0x00, rs2 as u32, rs1 as u32, 0x3, rd as u32, 0x33),
        Op::Xor { rd, rs1, rs2 } => enc_r_word(0x00, rs2 as u32, rs1 as u32, 0x4, rd as u32, 0x33),
        Op::Srl { rd, rs1, rs2 } => enc_r_word(0x00, rs2 as u32, rs1 as u32, 0x5, rd as u32, 0x33),
        Op::Sra { rd, rs1, rs2 } => enc_r_word(0x20, rs2 as u32, rs1 as u32, 0x5, rd as u32, 0x33),
        Op::Or { rd, rs1, rs2 } => enc_r_word(0x00, rs2 as u32, rs1 as u32, 0x6, rd as u32, 0x33),
        Op::And { rd, rs1, rs2 } => enc_r_word(0x00, rs2 as u32, rs1 as u32, 0x7, rd as u32, 0x33),
        Op::Mul { rd, rs1, rs2 } => enc_r_word(0x01, rs2 as u32, rs1 as u32, 0x0, rd as u32, 0x33),
        Op::Mulh { rd, rs1, rs2 } => enc_r_word(0x01, rs2 as u32, rs1 as u32, 0x1, rd as u32, 0x33),
        Op::Mulhsu { rd, rs1, rs2 } => enc_r_word(
            0x01,
            rs2 as u32,
            rs1 as u32,
            0x2,
            rd as u32,
            0x33,
        ),
        Op::Mulhu { rd, rs1, rs2 } => enc_r_word(
            0x01,
            rs2 as u32,
            rs1 as u32,
            0x3,
            rd as u32,
            0x33,
        ),
        Op::Div { rd, rs1, rs2 } => enc_r_word(0x01, rs2 as u32, rs1 as u32, 0x4, rd as u32, 0x33),
        Op::Divu { rd, rs1, rs2 } => enc_r_word(0x01, rs2 as u32, rs1 as u32, 0x5, rd as u32, 0x33),
        Op::Rem { rd, rs1, rs2 } => enc_r_word(0x01, rs2 as u32, rs1 as u32, 0x6, rd as u32, 0x33),
        Op::Remu { rd, rs1, rs2 } => enc_r_word(0x01, rs2 as u32, rs1 as u32, 0x7, rd as u32, 0x33),
        Op::Addw { rd, rs1, rs2 } => enc_r_word(0x00, rs2 as u32, rs1 as u32, 0x0, rd as u32, 0x3b),
        Op::Subw { rd, rs1, rs2 } => enc_r_word(0x20, rs2 as u32, rs1 as u32, 0x0, rd as u32, 0x3b),
        Op::Sllw { rd, rs1, rs2 } => enc_r_word(0x00, rs2 as u32, rs1 as u32, 0x1, rd as u32, 0x3b),
        Op::Srlw { rd, rs1, rs2 } => enc_r_word(0x00, rs2 as u32, rs1 as u32, 0x5, rd as u32, 0x3b),
        Op::Sraw { rd, rs1, rs2 } => enc_r_word(0x20, rs2 as u32, rs1 as u32, 0x5, rd as u32, 0x3b),
        Op::Mulw { rd, rs1, rs2 } => enc_r_word(0x01, rs2 as u32, rs1 as u32, 0x0, rd as u32, 0x3b),
        Op::Divw { rd, rs1, rs2 } => enc_r_word(0x01, rs2 as u32, rs1 as u32, 0x4, rd as u32, 0x3b),
        Op::Divuw { rd, rs1, rs2 } => enc_r_word(
            0x01,
            rs2 as u32,
            rs1 as u32,
            0x5,
            rd as u32,
            0x3b,
        ),
        Op::Remw { rd, rs1, rs2 } => enc_r_word(0x01, rs2 as u32, rs1 as u32, 0x6, rd as u32, 0x3b),
        Op::Remuw { rd, rs1, rs2 } => enc_r_word(
            0x01,
            rs2 as u32,
            rs1 as u32,
            0x7,
            rd as u32,
            0x3b,
        ),
        Op::Addi { rd, rs1, imm } => enc_i_word(bits12(imm), rs1 as u32, 0x0, rd as u32, 0x13),
        Op::Slti { rd, rs1, imm } => enc_i_word(bits12(imm), rs1 as u32, 0x2, rd as u32, 0x13),
        Op::Sltiu { rd, rs1, imm } => enc_i_word(bits12(imm), rs1 as u32, 0x3, rd as u32, 0x13),
        Op::Xori { rd, rs1, imm } => enc_i_word(bits12(imm), rs1 as u32, 0x4, rd as u32, 0x13),
        Op::Ori { rd, rs1, imm } => enc_i_word(bits12(imm), rs1 as u32, 0x6, rd as u32, 0x13),
        Op::Andi { rd, rs1, imm } => enc_i_word(bits12(imm), rs1 as u32, 0x7, rd as u32, 0x13),
        Op::Slli { rd, rs1, shamt } => enc_i_word(shamt as u32, rs1 as u32, 0x1, rd as u32, 0x13),
        Op::Srli { rd, rs1, shamt } => enc_i_word(shamt as u32, rs1 as u32, 0x5, rd as u32, 0x13),
        Op::Srai { rd, rs1, shamt } => enc_i_word(
            (shamt as u32) | 0x400,
            rs1 as u32,
            0x5,
            rd as u32,
            0x13,
        ),
        Op::Addiw { rd, rs1, imm } => enc_i_word(bits12(imm), rs1 as u32, 0x0, rd as u32, 0x1b),
        Op::Slliw { rd, rs1, shamt } => enc_i_word(shamt as u32, rs1 as u32, 0x1, rd as u32, 0x1b),
        Op::Srliw { rd, rs1, shamt } => enc_i_word(shamt as u32, rs1 as u32, 0x5, rd as u32, 0x1b),
        Op::Sraiw { rd, rs1, shamt } => enc_i_word(
            (shamt as u32) | 0x400,
            rs1 as u32,
            0x5,
            rd as u32,
            0x1b,
        ),
        Op::Lb { rd, rs1, offset } => enc_i_word(bits12(offset), rs1 as u32, 0x0, rd as u32, 0x03),
        Op::Lh { rd, rs1, offset } => enc_i_word(bits12(offset), rs1 as u32, 0x1, rd as u32, 0x03),
        Op::Lw { rd, rs1, offset } => enc_i_word(bits12(offset), rs1 as u32, 0x2, rd as u32, 0x03),
        Op::Ld { rd, rs1, offset } => enc_i_word(bits12(offset), rs1 as u32, 0x3, rd as u32, 0x03),
        Op::Lbu { rd, rs1, offset } => enc_i_word(bits12(offset), rs1 as u32, 0x4, rd as u32, 0x03),
        Op::Lhu { rd, rs1, offset } => enc_i_word(bits12(offset), rs1 as u32, 0x5, rd as u32, 0x03),
        Op::Lwu { rd, rs1, offset } => enc_i_word(bits12(offset), rs1 as u32, 0x6, rd as u32, 0x03),
        Op::Jalr { rd, rs1, offset } => enc_i_word(
            bits12(offset),
            rs1 as u32,
            0x0,
            rd as u32,
            0x67,
        ),
        Op::Sb { rs1, rs2, offset } => enc_s_word(bits12(offset), rs2 as u32, rs1 as u32, 0x0),
        Op::Sh { rs1, rs2, offset } => enc_s_word(bits12(offset), rs2 as u32, rs1 as u32, 0x1),
        Op::Sw { rs1, rs2, offset } => enc_s_word(bits12(offset), rs2 as u32, rs1 as u32, 0x2),
        Op::Sd { rs1, rs2, offset } => enc_s_word(bits12(offset), rs2 as u32, rs1 as u32, 0x3),
        Op::Beq { rs1, rs2, offset } => enc_b_word(bits13(offset), rs2 as u32, rs1 as u32, 0x0),
        Op::Bne { rs1, rs2, offset } => enc_b_word(bits13(offset), rs2 as u32, rs1 as u32, 0x1),
        Op::Blt { rs1, rs2, offset } => enc_b_word(bits13(offset), rs2 as u32, rs1 as u32, 0x4),
        Op::Bge { rs1, rs2, offset } => enc_b_word(bits13(offset), rs2 as u32, rs1 as u32, 0x5),
        Op::Bltu { rs1, rs2, offset } => enc_b_word(bits13(offset), rs2 as u32, rs1 as u32, 0x6),
        Op::Bgeu { rs1, rs2, offset } => enc_b_word(bits13(offset), rs2 as u32, rs1 as u32, 0x7),
        Op::Jal { rd, offset } => enc_j_word(bits21(offset), rd as u32),
        Op::Lui { rd, imm } => enc_u_word(bits32(imm), rd as u32, 0x37),
        Op::Auipc { rd, imm } => enc_u_word(bits32(imm), rd as u32, 0x17),
        Op::Fence => 0x0000_000f,
        Op::Ecall => 0x0000_0073,
        Op::Ebreak => 0x0010_0073,
        Op::Unimplemented { inst, .. } => inst,
    }
}

// ---------------------------------------------------------------------------
// Extraction facts, one per format
// ---------------------------------------------------------------------------

proof fn lemma_enc_constants()
    by (bit_vector)
    ensures
        0x0000_000fu32 & 0x3 == 0x3,
        0x0000_000fu32 & 0x7f == 0x0f,
        0x33u32 & 0x3 == 0x3,
        0x3bu32 & 0x3 == 0x3,
        0x13u32 & 0x3 == 0x3,
        0x1bu32 & 0x3 == 0x3,
        0x63u32 & 0x3 == 0x3,
        0x6fu32 & 0x3 == 0x3,
        0x67u32 & 0x3 == 0x3,
        0x03u32 & 0x3 == 0x3,
        0x23u32 & 0x3 == 0x3,
        0x37u32 & 0x3 == 0x3,
        0x17u32 & 0x3 == 0x3,
        0x73u32 & 0x3 == 0x3,
        forall|x: u32| x % 2 == 0 ==> #[trigger] (x & 1) == 0,
{
}

proof fn lemma_enc_r()
    by (bit_vector)
    ensures
        forall|f7: u32, rs2: u32, rs1: u32, f3: u32, rd: u32, opc: u32|
            f7 < 128 && rs2 < 32 && rs1 < 32 && f3 < 8 && rd < 32 && opc < 128 ==> {
                let w = #[trigger] enc_r_word(f7, rs2, rs1, f3, rd, opc);
                &&& w & 0x7f == opc
                &&& w & 0x3 == opc & 0x3
                &&& (w >> 12) & 0x7 == f3
                &&& w >> 25 == f7
                &&& (w >> 7) & 0x1f == rd
                &&& (w >> 15) & 0x1f == rs1
                &&& (w >> 20) & 0x1f == rs2
            },
{
}

proof fn lemma_enc_i()
    by (bit_vector)
    ensures
        forall|imm12: u32, rs1: u32, f3: u32, rd: u32, opc: u32|
            imm12 < 4096 && rs1 < 32 && f3 < 8 && rd < 32 && opc < 128 ==> {
                let w = #[trigger] enc_i_word(imm12, rs1, f3, rd, opc);
                &&& w & 0x7f == opc
                &&& w & 0x3 == opc & 0x3
                &&& (w >> 12) & 0x7 == f3
                &&& (w >> 7) & 0x1f == rd
                &&& (w >> 15) & 0x1f == rs1
                &&& w >> 20 == imm12
                &&& (w >> 20) & 0x3f == imm12 & 0x3f
                &&& (w >> 20) & 0x1f == imm12 & 0x1f
                &&& w >> 26 == imm12 >> 6
                &&& w >> 25 == imm12 >> 5
            },
        forall|sh: u32, hi: u32|
            sh < 64 && hi < 64 ==> (#[trigger] (sh | (hi << 6))) & 0x3f == sh && (sh | (hi << 6))
                >> 6 == hi && (sh | (hi << 6)) < 4096,
        forall|sh: u32|
            sh < 32 ==> (#[trigger] (sh | 0x400u32)) & 0x1f == sh && (sh | 0x400u32) >> 5 == 0x20
                && (sh | 0x400u32) < 4096,
        forall|sh: u32| sh < 32 ==> (sh & 0x1fu32) == sh && sh >> 5 == 0,
        forall|sh: u32| sh < 64 ==> (sh & 0x3fu32) == sh && sh >> 6 == 0,
        forall|sh: u32|
            sh < 64 ==> (#[trigger] (sh | 0x400u32)) & 0x3f == sh && (sh | 0x400u32) >> 6 == 0x10
                && (sh | 0x400u32) < 4096,
{
}

proof fn lemma_enc_s()
    by (bit_vector)
    ensures
        forall|imm12: u32, rs2: u32, rs1: u32, f3: u32|
            imm12 < 4096 && rs2 < 32 && rs1 < 32 && f3 < 8 ==> {
                let w = #[trigger] enc_s_word(imm12, rs2, rs1, f3);
                &&& w & 0x7f == 0x23
                &&& w & 0x3 == 0x3
                &&& (w >> 12) & 0x7 == f3
                &&& (w >> 15) & 0x1f == rs1
                &&& (w >> 20) & 0x1f == rs2
                &&& imm_s_bits(w) == imm12
            },
{
}

proof fn lemma_enc_b()
    by (bit_vector)
    ensures
        forall|b13: u32, rs2: u32, rs1: u32, f3: u32|
            b13 < 8192 && b13 & 1 == 0 && rs2 < 32 && rs1 < 32 && f3 < 8 ==> {
                let w = #[trigger] enc_b_word(b13, rs2, rs1, f3);
                &&& w & 0x7f == 0x63
                &&& w & 0x3 == 0x3
                &&& (w >> 12) & 0x7 == f3
                &&& (w >> 15) & 0x1f == rs1
                &&& (w >> 20) & 0x1f == rs2
                &&& imm_b_bits(w) == b13
            },
{
}

proof fn lemma_enc_u()
    by (bit_vector)
    ensures
        forall|ubits: u32, rd: u32, opc: u32|
            ubits & 0xfff == 0 && rd < 32 && opc < 128 ==> {
                let w = #[trigger] enc_u_word(ubits, rd, opc);
                &&& w & 0x7f == opc
                &&& w & 0x3 == opc & 0x3
                &&& (w >> 7) & 0x1f == rd
                &&& w & 0xffff_f000 == ubits
            },
        forall|imm: u32| imm % 4096 == 0 ==> #[trigger] (imm & 0xfff) == 0,
{
}

proof fn lemma_enc_j()
    by (bit_vector)
    ensures
        forall|j21: u32, rd: u32|
            j21 < 0x20_0000 && j21 & 1 == 0 && rd < 32 ==> {
                let w = #[trigger] enc_j_word(j21, rd);
                &&& w & 0x7f == 0x6f
                &&& w & 0x3 == 0x3
                &&& (w >> 7) & 0x1f == rd
                &&& imm_j_bits(w) == j21
            },
{
}

/// Sign extension undoes the two's-complement bit fields.
proof fn lemma_sign_ext_bits()
    ensures
        forall|imm: i64|
            -2048 <= imm < 2048 ==> sign_ext(#[trigger] bits12(imm), 12) == imm,
        forall|offset: i64|
            -4096 <= offset < 4096 ==> sign_ext(#[trigger] bits13(offset), 13) == offset,
        forall|offset: i64|
            -0x10_0000 <= offset < 0x10_0000 ==> sign_ext(#[trigger] bits21(offset), 21) == offset,
        forall|imm: i64|
            -0x8000_0000 <= imm < 0x8000_0000 ==> sign_ext(#[trigger] bits32(imm), 32) == imm,
{
    lemma2_to64();
    assert forall|imm: i64| -2048 <= imm < 2048 implies sign_ext(#[trigger] bits12(imm), 12)
        == imm by {
        assert(pow2(11) == 2048 && pow2(12) == 4096);
    }
    assert forall|offset: i64| -4096 <= offset < 4096 implies sign_ext(
        #[trigger] bits13(offset),
        13,
    ) == offset by {
        assert(pow2(12) == 4096 && pow2(13) == 8192);
    }
    assert forall|offset: i64| -0x10_0000 <= offset < 0x10_0000 implies sign_ext(
        #[trigger] bits21(offset),
        21,
    ) == offset by {
        assert(pow2(20) == 0x10_0000 && pow2(21) == 0x20_0000);
    }
    assert forall|imm: i64| -0x8000_0000 <= imm < 0x8000_0000 implies sign_ext(
        #[trigger] bits32(imm),
        32,
    ) == imm by {
        assert(pow2(31) == 0x8000_0000 && pow2(32) == 0x1_0000_0000);
    }
}

/// Round trip: decoding an encoded operation returns it exactly, for every
/// operation the 32-bit table covers.
#[verifier::rlimit(100)]
pub proof fn lemma_decode_encode(op: Op)
    requires
        encodable(op),
    ensures
        decode(encode(op)) == op,
{
    lemma_field_bounds();
    lemma_enc_constants();
    lemma_enc_r();
    lemma_enc_i();
    lemma_enc_s();
    lemma_enc_b();
    lemma_enc_u();
    lemma_enc_j();
    lemma_sign_ext_bits();
    lemma2_to64();
    match op {
        Op::Add { .. } => {
            assert(decode(encode(op)) == op);
        },
        Op::Sub { .. } => {
            assert(decode(encode(op)) == op);
        },
        Op::Sll { .. } => {
            assert(decode(encode(op)) == op);
        },
        Op::Slt { .. } => {
            assert(decode(encode(op)) == op);
        },
        Op::Sltu { .. } => {
            assert(decode(encode(op)) == op);
        },
        Op::Xor { .. } => {
            assert(decode(encode(op)) == op);
        },
        Op::Srl { .. } => {
            assert(decode(encode(op)) == op);
        },
        Op::Sra { .. } => {
            assert(decode(encode(op)) == op);
        },
        Op::Or { .. } => {
            assert(decode(encode(op)) == op);
        },
        Op::And { .. } => {
            assert(decode(encode(op)) == op);
        },
        Op::Mul { .. } => {
            assert(decode(encode(op)) == op);
        },
        Op::Mulh { .. } => {
            assert(decode(encode(op)) == op);
        },
        Op::Mulhsu { .. } => {
            assert(decode(encode(op)) == op);
        },
        Op::Mulhu { .. } => {
            assert(decode(encode(op)) == op);
        },
        Op::Div { .. } => {
            assert(decode(encode(op)) == op);
        },
        Op::Divu { .. } => {
            assert(decode(encode(op)) == op);
        },
        Op::Rem { .. } => {
            assert(decode(encode(op)) == op);
        },
        Op::Remu { .. } => {
            assert(decode(encode(op)) == op);
        },
        Op::Addw { .. } => {
            assert(decode(encode(op)) == op);
        },
        Op::Subw { .. } => {
            assert(decode(encode(op)) == op);
        },
        Op::Sllw { .. } => {
            assert(decode(encode(op)) == op);
        },
        Op::Srlw { .. } => {
            assert(decode(encode(op)) == op);
        },
        Op::Sraw { .. } => {
            assert(decode(encode(op)) == op);
        },
        Op::Mulw { .. } => {
            assert(decode(encode(op)) == op);
        },
        Op::Divw { .. } => {
            assert(decode(encode(op)) == op);
        },
        Op::Divuw { .. } => {
            assert(decode(encode(op)) == op);
        },
        Op::Remw { .. } => {
            assert(decode(encode(op)) == op);
        },
        Op::Remuw { .. } => {
            assert(decode(encode(op)) == op);
        },
        Op::Addi { .. } => {
            assert(decode(encode(op)) == op);
        },
        Op::Slti { .. } => {
            assert(decode(encode(op)) == op);
        },
        Op::Sltiu { .. } => {
            assert(decode(encode(op)) == op);
        },
        Op::Xori { .. } => {
            assert(decode(encode(op)) == op);
        },
        Op::Ori { .. } => {
            assert(decode(encode(op)) == op);
        },
        Op::Andi { .. } => {
            assert(decode(encode(op)) == op);
        },
        Op::Slli { .. } => {
            assert(decode(encode(op)) == op);
        },
        Op::Srli { .. } => {
            assert(decode(encode(op)) == op);
        },
        Op::Srai { .. } => {
            assert(decode(encode(op)) == op);
        },
        Op::Addiw { .. } => {
            assert(decode(encode(op)) == op);
        },
        Op::Slliw { .. } => {
            assert(decode(encode(op)) == op);
        },
        Op::Srliw { .. } => {
            assert(decode(encode(op)) == op);
        },
        Op::Sraiw { .. } => {
            assert(decode(encode(op)) == op);
        },
        Op::Lb { .. } => {
            assert(decode(encode(op)) == op);
        },
        Op::Lh { .. } => {
            assert(decode(encode(op)) == op);
        },
        Op::Lw { .. } => {
            assert(decode(encode(op)) == op);
        },
        Op::Ld { .. } => {
            assert(decode(encode(op)) == op);
        },
        Op::Lbu { .. } => {
            assert(decode(encode(op)) == op);
        },
        Op::Lhu { .. } => {
            assert(decode(encode(op)) == op);
        },
        Op::Lwu { .. } => {
            assert(decode(encode(op)) == op);
        },
        Op::Jalr { .. } => {
            assert(decode(encode(op)) == op);
        },
        Op::Sb { .. } => {
            assert(decode(encode(op)) == op);
        },
        Op::Sh { .. } => {
            assert(decode(encode(op)) == op);
        },
        Op::Sw { .. } => {
            assert(decode(encode(op)) == op);
        },
        Op::Sd { .. } => {
            assert(decode(encode(op)) == op);
        },
        Op::Beq { .. } => {
            assert(decode(encode(op)) == op);
        },
        Op::Bne { .. } => {
            assert(decode(encode(op)) == op);
        },
        Op::Blt { .. } => {
            assert(decode(encode(op)) == op);
        },
        Op::Bge { .. } => {
            assert(decode(encode(op)) == op);
        },
        Op::Bltu { .. } => {
            assert(decode(encode(op)) == op);
        },
        Op::Bgeu { .. } => {
            assert(decode(encode(op)) == op);
        },
        Op::Jal { .. } => {
            assert(decode(encode(op)) == op);
        },
        Op::Lui { .. } => {
            assert(decode(encode(op)) == op);
        },
        Op::Auipc { .. } => {
            assert(decode(encode(op)) == op);
        },
        Op::Fence => {
            assert(decode(encode(op)) == op);
        },
        Op::Ecall => {
            assert(decode(encode(op)) == op);
        },
        Op::Ebreak => {
            assert(decode(encode(op)) == op);
        },
        Op::Unimplemented { .. } => {},
    }
}

} // verus!
