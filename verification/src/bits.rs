//! Bit-field extractors for the RV64IMC instruction encodings.
//!
//! Every extractor is a pure function from a raw 32-bit word (for compressed
//! instructions only the low 16 bits matter) to a named field or immediate.
//! Each has a spec-level twin that states the exact bit layout, and signed
//! immediates go through a single sign-extension step stated arithmetically.

use vstd::arithmetic::power2::{lemma2_to64, lemma_pow2_strictly_increases, lemma_pow2_unfold, pow2};
use vstd::bits::lemma_u32_shl_is_mul;
use vstd::prelude::*;

verus! {

/// Interpret `v` as a `width`-bit two's-complement value and extend it to 64 bits.
pub open spec fn sign_ext(v: u32, width: nat) -> i64
    recommends
        1 <= width <= 32,
        (v as nat) < pow2(width),
{
    if (v as nat) < pow2((width - 1) as nat) {
        v as i64
    } else {
        (v - pow2(width)) as i64
    }
}

/// Sign-extend the low `width` bits of `v` to 64 bits.
pub fn sign_extend(v: u32, width: u32) -> (r: i64)
    requires
        1 <= width <= 32,
        (v as nat) < pow2(width as nat),
    ensures
        r == sign_ext(v, width as nat),
{
    proof {
        lemma2_to64();
        if width < 32 {
            lemma_pow2_strictly_increases((width - 1) as nat, 31);
        }
        lemma_u32_shl_is_mul(1u32, (width - 1) as u32);
        lemma_pow2_unfold(width as nat);
    }
    let half: u32 = 1u32 << (width - 1);
    if v < half {
        v as i64
    } else {
        (v as i64) - 2 * (half as i64)
    }
}

// ---------------------------------------------------------------------------
// Fields of the standard 32-bit encoding
// ---------------------------------------------------------------------------

pub open spec fn opcode_of(w: u32) -> u32 {
    w & 0x7f
}

pub open spec fn funct3_of(w: u32) -> u32 {
    (w >> 12) & 0x7
}

/// The funct7 field, bits [31:25], as a 7-bit unsigned value.
pub open spec fn funct7_of(w: u32) -> u32 {
    w >> 25
}

pub open spec fn rd_of(w: u32) -> usize {
    ((w >> 7) & 0x1f) as usize
}

pub open spec fn rs1_of(w: u32) -> usize {
    ((w >> 15) & 0x1f) as usize
}

pub open spec fn rs2_of(w: u32) -> usize {
    ((w >> 20) & 0x1f) as usize
}

/// Bounds that follow from the masks and shifts used by the extractors.
pub proof fn lemma_field_bounds()
    by (bit_vector)
    ensures
        forall|w: u32| #[trigger] (w & 0x3) < 4,
        0x0000_0073u32 & 0x7f == 0x73,
        0x0010_0073u32 & 0x7f == 0x73,
        0x0000_0073u32 & 0x3 == 0x3,
        0x0010_0073u32 & 0x3 == 0x3,
        forall|w: u32| #[trigger] ((w >> 12) & 0x7) < 8,
        forall|w: u32| #[trigger] ((w >> 13) & 0x7) < 8,
        forall|w: u32| #[trigger] (w >> 25) < 128,
        forall|w: u32| #[trigger] (w >> 20) < 0x1000,
        forall|w: u32| #[trigger] ((w >> 7) & 0x1f) < 32,
        forall|w: u32| #[trigger] ((w >> 15) & 0x1f) < 32,
        forall|w: u32| #[trigger] ((w >> 20) & 0x1f) < 32,
        forall|w: u32| #[trigger] ((w >> 20) & 0x3f) < 64,
        forall|w: u32| #[trigger] ((w >> 2) & 0x1f) < 32,
        forall|w: u32| #[trigger] ((w >> 7) & 0x7) < 8,
        forall|w: u32| #[trigger] ((w >> 2) & 0x7) < 8,
        forall|w: u32| #[trigger] imm_s_bits(w) < 0x1000,
        forall|w: u32| #[trigger] imm_b_bits(w) < 0x2000,
        forall|w: u32| #[trigger] imm_j_bits(w) < 0x200000,
        forall|w: u32| #[trigger] (w & 0xffff_f000) < 0x1_0000_0000,
        forall|w: u32| #[trigger] c_lwsp_imm_bits(w) < 0x100,
        forall|w: u32| #[trigger] c_ldsp_imm_bits(w) < 0x200,
        forall|w: u32| #[trigger] c_swsp_imm_bits(w) < 0x100,
        forall|w: u32| #[trigger] c_sdsp_imm_bits(w) < 0x200,
        forall|w: u32| #[trigger] c_lw_sw_imm_bits(w) < 0x80,
        forall|w: u32| #[trigger] c_ld_sd_imm_bits(w) < 0x100,
        forall|w: u32| #[trigger] c_j_jal_imm_bits(w) < 0x1000,
        forall|w: u32| #[trigger] c_beqz_bnez_imm_bits(w) < 0x200,
        forall|w: u32| #[trigger] c_li_addi_addiw_andi_imm_bits(w) < 0x40,
        forall|w: u32| #[trigger] c_lui_imm_bits(w) < 0x40000,
        forall|w: u32| #[trigger] c_addi16sp_imm_bits(w) < 0x400,
        forall|w: u32| #[trigger] c_addi4spn_imm_bits(w) < 0x400,
        forall|w: u32| #[trigger] c_slli_srli_srai_imm_bits(w) < 0x40,
{
}

pub fn get_funct3(w: u32) -> (r: u32)
    ensures
        r == funct3_of(w),
        r < 8,
{
    proof {
        lemma_field_bounds();
    }
    (w >> 12) & 0x7
}

pub fn get_funct7(w: u32) -> (r: u32)
    ensures
        r == funct7_of(w),
        r < 128,
{
    proof {
        lemma_field_bounds();
    }
    w >> 25
}

pub fn get_rd(w: u32) -> (r: usize)
    ensures
        r == rd_of(w),
        r < 32,
{
    proof {
        lemma_field_bounds();
    }
    ((w >> 7) & 0x1f) as usize
}

pub fn get_rs1(w: u32) -> (r: usize)
    ensures
        r == rs1_of(w),
        r < 32,
{
    proof {
        lemma_field_bounds();
    }
    ((w >> 15) & 0x1f) as usize
}

pub fn get_rs2(w: u32) -> (r: usize)
    ensures
        r == rs2_of(w),
        r < 32,
{
    proof {
        lemma_field_bounds();
    }
    ((w >> 20) & 0x1f) as usize
}

// ---------------------------------------------------------------------------
// Immediates of the standard 32-bit encoding
// ---------------------------------------------------------------------------

/// I-immediate: bits [31:20], sign-extended from 12 bits.
pub open spec fn imm_i_of(w: u32) -> i64 {
    sign_ext(w >> 20, 12)
}

pub fn get_imm_i(w: u32) -> (r: i64)
    ensures
        r == imm_i_of(w),
        -0x800 <= r < 0x800,
{
    let bits: u32 = w >> 20;
    proof {
        lemma_field_bounds();
        lemma2_to64();
    }
    sign_extend(bits, 12)
}

pub open spec fn imm_s_bits(w: u32) -> u32 {
    ((w >> 20) & 0xfe0) | ((w >> 7) & 0x1f)
}

/// S-immediate: bits [31:25] over [11:5] and [11:7] over [4:0], sign-extended from 12 bits.
pub open spec fn imm_s_of(w: u32) -> i64 {
    sign_ext(imm_s_bits(w), 12)
}

pub fn get_imm_s(w: u32) -> (r: i64)
    ensures
        r == imm_s_of(w),
        -0x800 <= r < 0x800,
{
    let bits: u32 = ((w >> 20) & 0xfe0) | ((w >> 7) & 0x1f);
    proof {
        lemma_field_bounds();
        lemma2_to64();
        assert(bits == imm_s_bits(w));
    }
    sign_extend(bits, 12)
}

pub open spec fn imm_b_bits(w: u32) -> u32 {
    ((w >> 19) & 0x1000) | ((w << 4) & 0x800) | ((w >> 20) & 0x7e0) | ((w >> 7) & 0x1e)
}

/// B-immediate: 13 bits with the low bit zero, sign-extended.
pub open spec fn imm_b_of(w: u32) -> i64 {
    sign_ext(imm_b_bits(w), 13)
}

pub fn get_imm_b(w: u32) -> (r: i64)
    ensures
        r == imm_b_of(w),
        -0x1000 <= r < 0x1000,
{
    let bits: u32 = ((w >> 19) & 0x1000) | ((w << 4) & 0x800) | ((w >> 20) & 0x7e0) | ((w >> 7) & 0x1e);
    proof {
        lemma_field_bounds();
        lemma2_to64();
        assert(bits == imm_b_bits(w));
    }
    sign_extend(bits, 13)
}

/// U-immediate: the word with its low 12 bits cleared, as a signed 32-bit value.
pub open spec fn imm_u_of(w: u32) -> i64 {
    sign_ext(w & 0xffff_f000, 32)
}

pub fn get_imm_u(w: u32) -> (r: i64)
    ensures
        r == imm_u_of(w),
        -0x8000_0000 <= r < 0x8000_0000,
{
    let bits: u32 = w & 0xffff_f000;
    proof {
        lemma_field_bounds();
        lemma2_to64();
    }
    sign_extend(bits, 32)
}

pub open spec fn imm_j_bits(w: u32) -> u32 {
    ((w >> 11) & 0x10_0000) | (w & 0xf_f000) | ((w >> 9) & 0x800) | ((w >> 20) & 0x7e0) | ((w
        >> 20) & 0x1e)
}

/// J-immediate: 21 bits with the low bit zero, sign-extended.
pub open spec fn imm_j_of(w: u32) -> i64 {
    sign_ext(imm_j_bits(w), 21)
}

pub fn get_imm_j(w: u32) -> (r: i64)
    ensures
        r == imm_j_of(w),
        -0x10_0000 <= r < 0x10_0000,
{
    let bits: u32 = ((w >> 11) & 0x10_0000) | (w & 0xf_f000) | ((w >> 9) & 0x800) | ((w >> 20) & 0x7e0) | ((w
            >> 20) & 0x1e);
    proof {
        lemma_field_bounds();
        lemma2_to64();
        assert(bits == imm_j_bits(w));
    }
    sign_extend(bits, 21)
}

// ---------------------------------------------------------------------------
// Fields of the compressed 16-bit encoding
// ---------------------------------------------------------------------------

/// The quadrant: the low two bits of a compressed instruction.
pub open spec fn c_op_of(w: u32) -> u32 {
    w & 0x3
}

pub open spec fn c_funct3_of(w: u32) -> u32 {
    (w >> 13) & 0x7
}

/// The rd'/rs1' field (bits 9-7), naming one of x8..x15.
pub open spec fn c_rs1_prime_of(w: u32) -> usize {
    (((w >> 7) & 0x7) + 8) as usize
}

/// The rs2' field (bits 4-2), naming one of x8..x15.
pub open spec fn c_rs2_prime_of(w: u32) -> usize {
    (((w >> 2) & 0x7) + 8) as usize
}

/// The full 5-bit rd/rs1 field (bits 11-7).
pub open spec fn c_rd_rs1_of(w: u32) -> usize {
    ((w >> 7) & 0x1f) as usize
}

/// The full 5-bit rs2 field (bits 6-2).
pub open spec fn c_rs2_of(w: u32) -> usize {
    ((w >> 2) & 0x1f) as usize
}

pub fn get_c_op(w: u32) -> (r: u32)
    ensures
        r == c_op_of(w),
        r < 4,
{
    proof {
        lemma_field_bounds();
    }
    w & 0x3
}

pub fn get_c_funct3(w: u32) -> (r: u32)
    ensures
        r == c_funct3_of(w),
        r < 8,
{
    proof {
        lemma_field_bounds();
    }
    (w >> 13) & 0x7
}

pub fn get_c_rs1_prime(w: u32) -> (r: usize)
    ensures
        r == c_rs1_prime_of(w),
        8 <= r < 16,
{
    proof {
        lemma_field_bounds();
    }
    (((w >> 7) & 0x7) + 8) as usize
}

pub fn get_c_rs2_prime(w: u32) -> (r: usize)
    ensures
        r == c_rs2_prime_of(w),
        8 <= r < 16,
{
    proof {
        lemma_field_bounds();
    }
    (((w >> 2) & 0x7) + 8) as usize
}

pub fn get_c_rd_rs1(w: u32) -> (r: usize)
    ensures
        r == c_rd_rs1_of(w),
        r < 32,
{
    proof {
        lemma_field_bounds();
    }
    ((w >> 7) & 0x1f) as usize
}

pub fn get_c_rs2(w: u32) -> (r: usize)
    ensures
        r == c_rs2_of(w),
        r < 32,
{
    proof {
        lemma_field_bounds();
    }
    ((w >> 2) & 0x1f) as usize
}

// ---------------------------------------------------------------------------
// Immediates of the compressed 16-bit encoding
// ---------------------------------------------------------------------------

pub open spec fn c_lwsp_imm_bits(w: u32) -> u32 {
    (((w >> 12) & 0x1) << 5) | (((w >> 6) & 0x1) << 4) | (((w >> 5) & 0x1) << 3) | (((w >> 4)
        & 0x1) << 2) | (((w >> 3) & 0x1) << 7) | (((w >> 2) & 0x1) << 6)
}

/// C.LWSP immediate: an unsigned, 4-scaled byte offset.
pub open spec fn c_lwsp_imm_of(w: u32) -> i64 {
    c_lwsp_imm_bits(w) as i64
}

pub fn get_c_lwsp_imm(w: u32) -> (r: i64)
    ensures
        r == c_lwsp_imm_of(w),
        0 <= r < 0x100,
{
    let bits: u32 = (((w >> 12) & 0x1) << 5) | (((w >> 6) & 0x1) << 4) | (((w >> 5) & 0x1) << 3) | (((w >> 4)
        & 0x1) << 2) | (((w >> 3) & 0x1) << 7) | (((w >> 2) & 0x1) << 6);
    proof {
        lemma_field_bounds();
        assert(bits == c_lwsp_imm_bits(w));
    }
    bits as i64
}

pub open spec fn c_ldsp_imm_bits(w: u32) -> u32 {
    (((w >> 12) & 0x1) << 5) | (((w >> 6) & 0x1) << 4) | (((w >> 5) & 0x1) << 3) | (((w >> 4)
        & 0x1) << 8) | (((w >> 3) & 0x1) << 7) | (((w >> 2) & 0x1) << 6)
}

/// C.LDSP immediate: an unsigned, 8-scaled byte offset.
pub open spec fn c_ldsp_imm_of(w: u32) -> i64 {
    c_ldsp_imm_bits(w) as i64
}

pub fn get_c_ldsp_imm(w: u32) -> (r: i64)
    ensures
        r == c_ldsp_imm_of(w),
        0 <= r < 0x200,
{
    let bits: u32 = (((w >> 12) & 0x1) << 5) | (((w >> 6) & 0x1) << 4) | (((w >> 5) & 0x1) << 3) | (((w >> 4)
        & 0x1) << 8) | (((w >> 3) & 0x1) << 7) | (((w >> 2) & 0x1) << 6);
    proof {
        lemma_field_bounds();
        assert(bits == c_ldsp_imm_bits(w));
    }
    bits as i64
}

pub open spec fn c_swsp_imm_bits(w: u32) -> u32 {
    (((w >> 12) & 0x1) << 5) | (((w >> 11) & 0x1) << 4) | (((w >> 10) & 0x1) << 3) | (((w >> 9)
        & 0x1) << 2) | (((w >> 8) & 0x1) << 7) | (((w >> 7) & 0x1) << 6)
}

/// C.SWSP immediate: an unsigned, 4-scaled byte offset.
pub open spec fn c_swsp_imm_of(w: u32) -> i64 {
    c_swsp_imm_bits(w) as i64
}

pub fn get_c_swsp_imm(w: u32) -> (r: i64)
    ensures
        r == c_swsp_imm_of(w),
        0 <= r < 0x100,
{
    let bits: u32 = (((w >> 12) & 0x1) << 5) | (((w >> 11) & 0x1) << 4) | (((w >> 10) & 0x1) << 3) | (((w >> 9)
        & 0x1) << 2) | (((w >> 8) & 0x1) << 7) | (((w >> 7) & 0x1) << 6);
    proof {
        lemma_field_bounds();
        assert(bits == c_swsp_imm_bits(w));
    }
    bits as i64
}

pub open spec fn c_sdsp_imm_bits(w: u32) -> u32 {
    (((w >> 12) & 0x1) << 5) | (((w >> 11) & 0x1) << 4) | (((w >> 10) & 0x1) << 3) | (((w >> 9)
        & 0x1) << 8) | (((w >> 8) & 0x1) << 7) | (((w >> 7) & 0x1) << 6)
}

/// C.SDSP immediate: an unsigned, 8-scaled byte offset.
pub open spec fn c_sdsp_imm_of(w: u32) -> i64 {
    c_sdsp_imm_bits(w) as i64
}

pub fn get_c_sdsp_imm(w: u32) -> (r: i64)
    ensures
        r == c_sdsp_imm_of(w),
        0 <= r < 0x200,
{
    let bits: u32 = (((w >> 12) & 0x1) << 5) | (((w >> 11) & 0x1) << 4) | (((w >> 10) & 0x1) << 3) | (((w >> 9)
        & 0x1) << 8) | (((w >> 8) & 0x1) << 7) | (((w >> 7) & 0x1) << 6);
    proof {
        lemma_field_bounds();
        assert(bits == c_sdsp_imm_bits(w));
    }
    bits as i64
}

pub open spec fn c_lw_sw_imm_bits(w: u32) -> u32 {
    (((w >> 12) & 0x1) << 5) | (((w >> 11) & 0x1) << 4) | (((w >> 10) & 0x1) << 3) | (((w >> 6)
        & 0x1) << 2) | (((w >> 5) & 0x1) << 6)
}

/// C.LW / C.SW immediate: an unsigned, 4-scaled byte offset.
pub open spec fn c_lw_sw_imm_of(w: u32) -> i64 {
    c_lw_sw_imm_bits(w) as i64
}

pub fn get_c_lw_sw_imm(w: u32) -> (r: i64)
    ensures
        r == c_lw_sw_imm_of(w),
        0 <= r < 0x80,
{
    let bits: u32 = (((w >> 12) & 0x1) << 5) | (((w >> 11) & 0x1) << 4) | (((w >> 10) & 0x1) << 3) | (((w >> 6)
        & 0x1) << 2) | (((w >> 5) & 0x1) << 6);
    proof {
        lemma_field_bounds();
        assert(bits == c_lw_sw_imm_bits(w));
    }
    bits as i64
}

pub open spec fn c_ld_sd_imm_bits(w: u32) -> u32 {
    (((w >> 12) & 0x1) << 5) | (((w >> 11) & 0x1) << 4) | (((w >> 10) & 0x1) << 3) | (((w >> 6)
        & 0x1) << 7) | (((w >> 5) & 0x1) << 6)
}

/// C.LD / C.SD immediate: an unsigned, 8-scaled byte offset.
pub open spec fn c_ld_sd_imm_of(w: u32) -> i64 {
    c_ld_sd_imm_bits(w) as i64
}

pub fn get_c_ld_sd_imm(w: u32) -> (r: i64)
    ensures
        r == c_ld_sd_imm_of(w),
        0 <= r < 0x100,
{
    let bits: u32 = (((w >> 12) & 0x1) << 5) | (((w >> 11) & 0x1) << 4) | (((w >> 10) & 0x1) << 3) | (((w >> 6)
        & 0x1) << 7) | (((w >> 5) & 0x1) << 6);
    proof {
        lemma_field_bounds();
        assert(bits == c_ld_sd_imm_bits(w));
    }
    bits as i64
}

pub open spec fn c_j_jal_imm_bits(w: u32) -> u32 {
    (((w >> 12) & 0x1) << 11) | (((w >> 11) & 0x1) << 4) | (((w >> 10) & 0x1) << 9) | (((w >> 9)
        & 0x1) << 8) | (((w >> 8) & 0x1) << 10) | (((w >> 7) & 0x1) << 6) | (((w >> 6) & 0x1) << 7)
        | (((w >> 5) & 0x1) << 3) | (((w >> 4) & 0x1) << 2) | (((w >> 3) & 0x1) << 1) | (((w >> 2)
        & 0x1) << 5)
}

/// C.J / C.JAL immediate: 12 bits with the low bit zero, sign-extended.
pub open spec fn c_j_jal_imm_of(w: u32) -> i64 {
    sign_ext(c_j_jal_imm_bits(w), 12)
}

pub fn get_c_j_jal_imm(w: u32) -> (r: i64)
    ensures
        r == c_j_jal_imm_of(w),
        -0x800 <= r < 0x800,
{
    let bits: u32 = (((w >> 12) & 0x1) << 11) | (((w >> 11) & 0x1) << 4) | (((w >> 10) & 0x1) << 9) | (((w
            >> 9) & 0x1) << 8) | (((w >> 8) & 0x1) << 10) | (((w >> 7) & 0x1) << 6) | (((w >> 6)
            & 0x1) << 7) | (((w >> 5) & 0x1) << 3) | (((w >> 4) & 0x1) << 2) | (((w >> 3) & 0x1)
            << 1) | (((w >> 2) & 0x1) << 5);
    proof {
        lemma_field_bounds();
        lemma2_to64();
        assert(bits == c_j_jal_imm_bits(w));
    }
    sign_extend(bits, 12)
}

pub open spec fn c_beqz_bnez_imm_bits(w: u32) -> u32 {
    (((w >> 12) & 0x1) << 8) | (((w >> 11) & 0x1) << 4) | (((w >> 10) & 0x1) << 3) | (((w >> 6)
        & 0x1) << 7) | (((w >> 5) & 0x1) << 6) | (((w >> 4) & 0x1) << 2) | (((w >> 3) & 0x1) << 1)
        | (((w >> 2) & 0x1) << 5)
}

/// C.BEQZ / C.BNEZ immediate: 9 bits with the low bit zero, sign-extended.
pub open spec fn c_beqz_bnez_imm_of(w: u32) -> i64 {
    sign_ext(c_beqz_bnez_imm_bits(w), 9)
}

pub fn get_c_beqz_bnez_imm(w: u32) -> (r: i64)
    ensures
        r == c_beqz_bnez_imm_of(w),
        -0x100 <= r < 0x100,
{
    let bits: u32 = (((w >> 12) & 0x1) << 8) | (((w >> 11) & 0x1) << 4) | (((w >> 10) & 0x1) << 3) | (((w >> 6)
            & 0x1) << 7) | (((w >> 5) & 0x1) << 6) | (((w >> 4) & 0x1) << 2) | (((w >> 3) & 0x1)
            << 1) | (((w >> 2) & 0x1) << 5);
    proof {
        lemma_field_bounds();
        lemma2_to64();
        assert(bits == c_beqz_bnez_imm_bits(w));
    }
    sign_extend(bits, 9)
}

pub open spec fn c_li_addi_addiw_andi_imm_bits(w: u32) -> u32 {
    (((w >> 12) & 0x1) << 5) | (((w >> 6) & 0x1) << 4) | (((w >> 5) & 0x1) << 3) | (((w >> 4)
        & 0x1) << 2) | (((w >> 3) & 0x1) << 1) | ((w >> 2) & 0x1)
}

/// C.LI / C.ADDI / C.ADDIW / C.ANDI immediate: 6 bits, sign-extended.
pub open spec fn c_li_addi_addiw_andi_imm_of(w: u32) -> i64 {
    sign_ext(c_li_addi_addiw_andi_imm_bits(w), 6)
}

pub fn get_c_li_addi_addiw_andi_imm(w: u32) -> (r: i64)
    ensures
        r == c_li_addi_addiw_andi_imm_of(w),
        -0x20 <= r < 0x20,
{
    let bits: u32 = (((w >> 12) & 0x1) << 5) | (((w >> 6) & 0x1) << 4) | (((w >> 5) & 0x1) << 3) | (((w >> 4)
            & 0x1) << 2) | (((w >> 3) & 0x1) << 1) | ((w >> 2) & 0x1);
    proof {
        lemma_field_bounds();
        lemma2_to64();
        assert(bits == c_li_addi_addiw_andi_imm_bits(w));
    }
    sign_extend(bits, 6)
}

pub open spec fn c_lui_imm_bits(w: u32) -> u32 {
    (((w >> 12) & 0x1) << 17) | (((w >> 6) & 0x1) << 16) | (((w >> 5) & 0x1) << 15) | (((w >> 4)
        & 0x1) << 14) | (((w >> 3) & 0x1) << 13) | (((w >> 2) & 0x1) << 12)
}

/// C.LUI immediate: 18 bits with the low 12 zero, sign-extended.
pub open spec fn c_lui_imm_of(w: u32) -> i64 {
    sign_ext(c_lui_imm_bits(w), 18)
}

pub fn get_c_lui_imm(w: u32) -> (r: i64)
    ensures
        r == c_lui_imm_of(w),
        -0x20000 <= r < 0x20000,
{
    let bits: u32 = (((w >> 12) & 0x1) << 17) | (((w >> 6) & 0x1) << 16) | (((w >> 5) & 0x1) << 15) | (((w
            >> 4) & 0x1) << 14) | (((w >> 3) & 0x1) << 13) | (((w >> 2) & 0x1) << 12);
    proof {
        lemma_field_bounds();
        lemma2_to64();
        assert(bits == c_lui_imm_bits(w));
    }
    sign_extend(bits, 18)
}

pub open spec fn c_addi16sp_imm_bits(w: u32) -> u32 {
    (((w >> 12) & 0x1) << 9) | (((w >> 6) & 0x1) << 4) | (((w >> 5) & 0x1) << 6) | (((w >> 4)
        & 0x1) << 8) | (((w >> 3) & 0x1) << 7) | (((w >> 2) & 0x1) << 5)
}

/// C.ADDI16SP immediate: 10 bits with the low 4 zero, sign-extended.
pub open spec fn c_addi16sp_imm_of(w: u32) -> i64 {
    sign_ext(c_addi16sp_imm_bits(w), 10)
}

pub fn get_c_addi16sp_imm(w: u32) -> (r: i64)
    ensures
        r == c_addi16sp_imm_of(w),
        -0x200 <= r < 0x200,
{
    let bits: u32 = (((w >> 12) & 0x1) << 9) | (((w >> 6) & 0x1) << 4) | (((w >> 5) & 0x1) << 6) | (((w >> 4)
            & 0x1) << 8) | (((w >> 3) & 0x1) << 7) | (((w >> 2) & 0x1) << 5);
    proof {
        lemma_field_bounds();
        lemma2_to64();
        assert(bits == c_addi16sp_imm_bits(w));
    }
    sign_extend(bits, 10)
}

pub open spec fn c_addi4spn_imm_bits(w: u32) -> u32 {
    (((w >> 12) & 0x1) << 5) | (((w >> 11) & 0x1) << 4) | (((w >> 10) & 0x1) << 9) | (((w >> 9)
        & 0x1) << 8) | (((w >> 8) & 0x1) << 7) | (((w >> 7) & 0x1) << 6) | (((w >> 6) & 0x1) << 2)
        | (((w >> 5) & 0x1) << 3)
}

/// C.ADDI4SPN immediate: a 10-bit unsigned, 4-scaled byte offset.
pub open spec fn c_addi4spn_imm_of(w: u32) -> i64 {
    c_addi4spn_imm_bits(w) as i64
}

pub fn get_c_addi4spn_imm(w: u32) -> (r: i64)
    ensures
        r == c_addi4spn_imm_of(w),
        0 <= r < 0x400,
{
    let bits: u32 = (((w >> 12) & 0x1) << 5) | (((w >> 11) & 0x1) << 4) | (((w >> 10) & 0x1) << 9) | (((w >> 9)
        & 0x1) << 8) | (((w >> 8) & 0x1) << 7) | (((w >> 7) & 0x1) << 6) | (((w >> 6) & 0x1) << 2)
        | (((w >> 5) & 0x1) << 3);
    proof {
        lemma_field_bounds();
        assert(bits == c_addi4spn_imm_bits(w));
    }
    bits as i64
}

pub open spec fn c_slli_srli_srai_imm_bits(w: u32) -> u32 {
    (((w >> 12) & 0x1) << 5) | (((w >> 6) & 0x1) << 4) | (((w >> 5) & 0x1) << 3) | (((w >> 4)
        & 0x1) << 2) | (((w >> 3) & 0x1) << 1) | ((w >> 2) & 0x1)
}

/// C.SLLI / C.SRLI / C.SRAI shift amount: 6 bits, unsigned.
pub open spec fn c_slli_srli_srai_imm_of(w: u32) -> i64 {
    c_slli_srli_srai_imm_bits(w) as i64
}

pub fn get_c_slli_srli_srai_imm(w: u32) -> (r: i64)
    ensures
        r == c_slli_srli_srai_imm_of(w),
        0 <= r < 0x40,
{
    let bits: u32 = (((w >> 12) & 0x1) << 5) | (((w >> 6) & 0x1) << 4) | (((w >> 5) & 0x1) << 3) | (((w >> 4)
        & 0x1) << 2) | (((w >> 3) & 0x1) << 1) | ((w >> 2) & 0x1);
    proof {
        lemma_field_bounds();
        assert(bits == c_slli_srli_srai_imm_bits(w));
    }
    bits as i64
}

} // verus!
