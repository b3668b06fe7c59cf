//! The library's general laws, each proved once and for all inputs: how
//! renderings are shaped, how pseudo-recognition relates to canonical
//! rendering, what the zero register and the W-forms guarantee, the
//! algebra of shifts, address formation and wide multiplies, and the
//! division edge cases the ISA fixes.

use crate::alu::{
    div32, div64, divu32, divu64, mulh64, mulhsu64, mulhu64, rem32, rem64, remu32, remu64, sll64,
    srl64, wadd64, wmul64,
};
use crate::bits::{c_addi4spn_imm_of, c_funct3_of, c_lui_imm_of, c_op_of, c_rd_rs1_of, c_rs2_of};
use crate::decode::decode_compressed_s;
use crate::exec::{step, st_wr};
use crate::fields::{fields_of, pseudo_fields_of, FieldV};
use crate::machine::{reg_write, MachineV};
use crate::op::{op_wf, Note, Op, GP, RA, ZERO};
use vstd::arithmetic::div_mod::{
    lemma_fundamental_div_mod, lemma_mul_mod_noop_general,
};
use vstd::prelude::*;

verus! {

/// Facts about two's-complement views and masks that the laws lean on.
proof fn lemma_laws_bits()
    by (bit_vector)
    ensures
        forall|v: i64|
            (#[trigger] (v as u64)) as int == if v >= 0 {
                v as int
            } else {
                v + 0x1_0000_0000_0000_0000
            },
        forall|x: i64, sh: u64|
            sh < 64 ==> ((#[trigger] ((((x << sh) as u64) >> sh) as i64)) as u64) == (x as u64) & (
            0xffff_ffff_ffff_ffffu64 >> sh),
        forall|x: u64| ((#[trigger] ((x & 0xffff_ffff_ffff_fffeu64) as i64)) as u64) & 1 == 0,
        forall|x: u64| #[trigger] (x & 1) == 0 ==> x % 2 == 0,
        forall|x: u64| ((#[trigger] (x as i64)) as u64) == x,
{
}

/// Every operation renders with a non-empty mnemonic first.
#[verifier::rlimit(100)]
pub proof fn lemma_fields_start_with_mnemonic(op: Op)
    ensures
        fields_of(op).len() >= 1,
        fields_of(op)[0] matches FieldV::Opcode(s) && s.len() > 0,
        pseudo_fields_of(op).len() >= 1,
        pseudo_fields_of(op)[0] matches FieldV::Opcode(s) && s.len() > 0,
{
    reveal_strlit("add");
    reveal_strlit("sub");
    reveal_strlit("sll");
    reveal_strlit("slt");
    reveal_strlit("sltu");
    reveal_strlit("xor");
    reveal_strlit("srl");
    reveal_strlit("sra");
    reveal_strlit("or");
    reveal_strlit("and");
    reveal_strlit("addw");
    reveal_strlit("subw");
    reveal_strlit("sllw");
    reveal_strlit("srlw");
    reveal_strlit("sraw");
    reveal_strlit("addi");
    reveal_strlit("slti");
    reveal_strlit("sltiu");
    reveal_strlit("xori");
    reveal_strlit("ori");
    reveal_strlit("andi");
    reveal_strlit("slli");
    reveal_strlit("srli");
    reveal_strlit("srai");
    reveal_strlit("addiw");
    reveal_strlit("slliw");
    reveal_strlit("srliw");
    reveal_strlit("sraiw");
    reveal_strlit("beq");
    reveal_strlit("bne");
    reveal_strlit("blt");
    reveal_strlit("bge");
    reveal_strlit("bltu");
    reveal_strlit("bgeu");
    reveal_strlit("jal");
    reveal_strlit("jalr");
    reveal_strlit("lb");
    reveal_strlit("lh");
    reveal_strlit("lw");
    reveal_strlit("ld");
    reveal_strlit("lbu");
    reveal_strlit("lhu");
    reveal_strlit("lwu");
    reveal_strlit("sb");
    reveal_strlit("sh");
    reveal_strlit("sw");
    reveal_strlit("sd");
    reveal_strlit("lui");
    reveal_strlit("auipc");
    reveal_strlit("fence");
    reveal_strlit("ecall");
    reveal_strlit("ebreak");
    reveal_strlit("mul");
    reveal_strlit("mulh");
    reveal_strlit("mulhsu");
    reveal_strlit("mulhu");
    reveal_strlit("div");
    reveal_strlit("divu");
    reveal_strlit("rem");
    reveal_strlit("remu");
    reveal_strlit("mulw");
    reveal_strlit("divw");
    reveal_strlit("divuw");
    reveal_strlit("remw");
    reveal_strlit("remuw");
    reveal_strlit("???");
    reveal_strlit("nop");
    reveal_strlit("li");
    reveal_strlit("mv");
    reveal_strlit("la");
    reveal_strlit("ret");
    reveal_strlit("jr");
    reveal_strlit("j");
    reveal_strlit("not");
    reveal_strlit("seqz");
    reveal_strlit("snez");
    reveal_strlit("beqz");
    reveal_strlit("bnez");
    reveal_strlit("bltz");
    reveal_strlit("bgez");
    reveal_strlit("blez");
    reveal_strlit("bgtz");
    reveal_strlit("negw");
    reveal_strlit("neg");
    reveal_strlit("sgtz");
    reveal_strlit("sltz");
}

/// The guard of some row of the pseudo-instruction table, §4.4's aliases,
/// in the order the renderer tries them.
pub open spec fn is_pseudo_pattern(op: Op) -> bool {
    match op {
        Op::Addi { rd, rs1, imm } => (rd == ZERO && rs1 == ZERO && imm == 0) || rs1 == ZERO || imm
            == 0 || rs1 == GP,
        Op::Jalr { rd, rs1, offset } => offset == 0 && (rd == ZERO || rd == RA),
        Op::Jal { rd, .. } => rd == ZERO || rd == RA,
        Op::Xori { imm, .. } => imm == -1,
        Op::Sltiu { imm, .. } => imm == 1,
        Op::Sltu { rs1, .. } => rs1 == ZERO,
        Op::Beq { rs1, rs2, .. } => rs1 == ZERO || rs2 == ZERO,
        Op::Bne { rs1, rs2, .. } => rs1 == ZERO || rs2 == ZERO,
        Op::Blt { rs1, rs2, .. } => rs1 == ZERO || rs2 == ZERO,
        Op::Bge { rs1, rs2, .. } => rs1 == ZERO || rs2 == ZERO,
        Op::Subw { rs1, .. } => rs1 == ZERO,
        Op::Sub { rs1, .. } => rs1 == ZERO,
        Op::Slt { rs1, rs2, .. } => rs1 == ZERO || rs2 == ZERO,
        _ => false,
    }
}

/// The pseudo rendering either is the canonical rendering, or exactly one
/// row of the alias table applies: the first matching row, whose rendering
/// always differs in length from the canonical one.
#[verifier::rlimit(100)]
pub proof fn lemma_pseudo_rendering(op: Op)
    ensures
        is_pseudo_pattern(op) || pseudo_fields_of(op) == fields_of(op),
        is_pseudo_pattern(op) ==> pseudo_fields_of(op).len() < fields_of(op).len(),
{
}

/// Writes to register 0 leave the architectural state unchanged.
pub proof fn lemma_zero_register_write(m: MachineV, v: i64)
    ensures
        st_wr(m, ZERO, v).m == m,
        reg_write(m.regs, 0, v) == m.regs,
{
    assert(st_wr(m, ZERO, v).m =~= m);
}

/// The W-forms of the instruction set.
pub open spec fn is_wform(op: Op) -> bool {
    match op {
        Op::Addw { .. } => true,
        Op::Subw { .. } => true,
        Op::Sllw { .. } => true,
        Op::Srlw { .. } => true,
        Op::Sraw { .. } => true,
        Op::Addiw { .. } => true,
        Op::Slliw { .. } => true,
        Op::Srliw { .. } => true,
        Op::Sraiw { .. } => true,
        Op::Mulw { .. } => true,
        Op::Divw { .. } => true,
        Op::Divuw { .. } => true,
        Op::Remw { .. } => true,
        Op::Remuw { .. } => true,
        _ => false,
    }
}

/// After a W-form, every register either kept its old value or holds the
/// sign-extension of its own low 32 bits.
#[verifier::rlimit(100)]
pub proof fn lemma_wform_sign_extension(op: Op, m: MachineV, length: i64)
    requires
        is_wform(op),
        op_wf(op),
        m.wf(),
    ensures
        forall|r: int|
            0 <= r < 32 ==> (#[trigger] step(op, m, length).m.regs[r]) == m.regs[r] || step(
                op,
                m,
                length,
            ).m.regs[r] == ((step(op, m, length).m.regs[r] as i32) as i64),
{
}

/// A left shift then a logical right shift by the same amount keeps the
/// low `64 - sh` bits and zeroes the high ones.
pub proof fn lemma_sll_then_srl(x: i64, sh: i64)
    requires
        0 <= sh < 64,
    ensures
        (srl64(sll64(x, sh as u64), sh as u64) as u64) == (x as u64) & (0xffff_ffff_ffff_ffffu64
            >> (sh as u64)),
{
    lemma_laws_bits();
}

/// Executing `slli rd, rs1, sh` then `srli rd, rd, sh` leaves in `rd` the
/// low `64 - sh` bits of `rs1`, with the high bits zero.
pub proof fn lemma_slli_then_srli(m: MachineV, rd: usize, rs1: usize, shamt: i64, length: i64)
    requires
        m.wf(),
        0 < rd < 32,
        rs1 < 32,
        0 <= shamt < 64,
    ensures
        ({
            let m1 = step(Op::Slli { rd, rs1, shamt }, m, length).m;
            let m2 = step(Op::Srli { rd, rs1: rd, shamt }, m1, length).m;
            (m2.regs[rd as int] as u64) == (m.regs[rs1 as int] as u64) & (
            0xffff_ffff_ffff_ffffu64 >> (shamt as u64))
        }),
{
    lemma_sll_then_srl(m.regs[rs1 as int], shamt);
}

/// `auipc rd, imm` immediately followed by `addi rd, rd, lo` computes
/// `pc + imm + lo` with wrapping arithmetic (the U-immediate is already
/// shifted at decode time), wherever the counter stands for the second
/// instruction.
pub proof fn lemma_auipc_then_addi(
    m: MachineV,
    rd: usize,
    imm: i64,
    lo: i64,
    pc2: i64,
    length: i64,
)
    requires
        m.wf(),
        0 < rd < 32,
    ensures
        ({
            let m1 = step(Op::Auipc { rd, imm }, m, length).m;
            let m2 = step(
                Op::Addi { rd, rs1: rd, imm: lo },
                MachineV { pc: pc2, ..m1 },
                length,
            ).m;
            m2.regs[rd as int] == wadd64(wadd64(m.pc, imm), lo)
        }),
{
}

/// The ISA's division edge cases: division by zero gives -1 (all ones for
/// the unsigned forms) with the dividend as remainder, and the one signed
/// overflow wraps to the minimum with remainder 0.
pub proof fn lemma_division_edges(x: i64, w: i32)
    ensures
        div64(x, 0) == -1,
        rem64(x, 0) == x,
        divu64(x, 0) == -1,
        remu64(x, 0) == x,
        div32(w, 0) == -1,
        rem32(w, 0) == w,
        divu32(w, 0) == -1,
        remu32(w, 0) == w,
        div64(i64::MIN, -1i64) == i64::MIN,
        rem64(i64::MIN, -1i64) == 0,
        div32(i32::MIN, -1i32) == i32::MIN,
        rem32(i32::MIN, -1i32) == 0,
{
}

/// The reserved compressed encodings decode to `Unimplemented`, each with
/// its reason.
pub proof fn lemma_reserved_compressed(w: u32)
    ensures
        c_op_of(w) == 0 && c_funct3_of(w) == 0 && c_addi4spn_imm_of(w) == 0 ==> decode_compressed_s(
            w,
        ) == (Op::Unimplemented { inst: w, note: Note::CAddi4spnZero }),
        c_op_of(w) == 1 && c_funct3_of(w) == 1 && c_rd_rs1_of(w) == 0 ==> decode_compressed_s(w)
            == (Op::Unimplemented { inst: w, note: Note::CAddiwZeroRd }),
        c_op_of(w) == 1 && c_funct3_of(w) == 3 && c_rd_rs1_of(w) != 2 && c_lui_imm_of(w) == 0
            ==> decode_compressed_s(w) == (Op::Unimplemented { inst: w, note: Note::CLuiZero }),
        c_op_of(w) == 2 && c_funct3_of(w) == 2 && c_rd_rs1_of(w) == 0 ==> decode_compressed_s(w)
            == (Op::Unimplemented { inst: w, note: Note::CLwspZeroRd }),
        c_op_of(w) == 2 && c_funct3_of(w) == 3 && c_rd_rs1_of(w) == 0 ==> decode_compressed_s(w)
            == (Op::Unimplemented { inst: w, note: Note::CLdspZeroRd }),
        c_op_of(w) == 2 && c_funct3_of(w) == 4 && (w >> 12) & 1 == 0 && c_rs2_of(w) == 0
            && c_rd_rs1_of(w) == 0 ==> decode_compressed_s(w) == (Op::Unimplemented {
            inst: w,
            note: Note::CJrZeroRd,
        }),
{
}

/// `jalr` clears the low bit of the target: after a successful jump the
/// program counter is even.
pub proof fn lemma_jalr_clears_low_bit(
    m: MachineV,
    rd: usize,
    rs1: usize,
    offset: i64,
    length: i64,
)
    requires
        m.wf(),
        rd < 32,
        rs1 < 32,
    ensures
        step(Op::Jalr { rd, rs1, offset }, m, length).r is Ok ==> step(
            Op::Jalr { rd, rs1, offset },
            m,
            length,
        ).m.pc % 2 == 0,
{
    lemma_laws_bits();
    let t = ((wadd64(m.regs[rs1 as int], offset) as u64) & 0xffff_ffff_ffff_fffe) as i64;
    assert((t as u64) & 1 == 0);
    assert((t as u64) % 2 == 0);
    assert(t % 2 == 0) by {
        if t < 0 {
            assert((t as u64) as int == t + 0x1_0000_0000_0000_0000);
            assert((t + 0x1_0000_0000_0000_0000) % 2 == t % 2) by {
                vstd::arithmetic::div_mod::lemma_mod_add_multiples_vanish(
                    t as int,
                    2int,
                );
                assert(t + 0x1_0000_0000_0000_0000 == t + 2 * 0x8000_0000_0000_0000);
            }
        }
    }
}

/// `mul` is the low 64 bits of every one of the three 128-bit products
/// whose high halves `mulh`, `mulhsu` and `mulhu` return.
pub proof fn lemma_mul_is_low_half(a: i64, b: i64)
    ensures
        mulh64(a, b) * 0x1_0000_0000_0000_0000 + (wmul64(a, b) as u64) == a as int * b as int,
        mulhsu64(a, b) * 0x1_0000_0000_0000_0000 + (wmul64(a, b) as u64) == a as int * ((
        b as u64) as int),
        ((mulhu64(a, b) as u64) as int) * 0x1_0000_0000_0000_0000 + (wmul64(a, b) as u64) == ((
        a as u64) as int) * ((b as u64) as int),
{
    lemma_laws_bits();
    let d = 0x1_0000_0000_0000_0000int;
    let p = a as int * b as int;
    let psu = a as int * ((b as u64) as int);
    let pu = ((a as u64) as int) * ((b as u64) as int);
    lemma_fundamental_div_mod(p, d);
    lemma_fundamental_div_mod(psu, d);
    lemma_fundamental_div_mod(pu, d);
    // the three products agree modulo 2^64
    lemma_mul_mod_noop_general(a as int, b as int, d);
    lemma_mul_mod_noop_general(a as int, (b as u64) as int, d);
    lemma_mul_mod_noop_general((a as u64) as int, (b as u64) as int, d);
    assert((b as u64) as int % d == (b as int) % d) by {
        if b < 0 {
            vstd::arithmetic::div_mod::lemma_mod_add_multiples_vanish(b as int, d);
        }
    }
    assert((a as u64) as int % d == (a as int) % d) by {
        if a < 0 {
            vstd::arithmetic::div_mod::lemma_mod_add_multiples_vanish(a as int, d);
        }
    }
    // the wrapped product is the common low half
    assert((wmul64(a, b) as u64) as int == p % d) by {
        let low = vstd::wrapping::i64_specs::signed_crop(p);
        if p % d > i64::MAX {
            vstd::arithmetic::div_mod::lemma_mod_add_multiples_vanish((p % d) - d, d);
            vstd::arithmetic::div_mod::lemma_small_mod(((p % d) - d + d) as nat, d as nat);
        }
    }
    // and the high halves sit exactly 2^64 apart from it
    assert(mulh64(a, b) as int == p / d) by {
        assert(-0x8000_0000_0000_0000 * 0x1_0000_0000_0000_0000 <= p < 0x8000_0000_0000_0000
            * 0x1_0000_0000_0000_0000) by (nonlinear_arith)
            requires
                p == a as int * b as int,
                -0x8000_0000_0000_0000 <= a as int <= 0x7fff_ffff_ffff_ffff,
                -0x8000_0000_0000_0000 <= b as int <= 0x7fff_ffff_ffff_ffff,
        ;
        lemma_div_in_i64_range(p);
    }
    assert(mulhsu64(a, b) as int == psu / d) by {
        assert(-0x8000_0000_0000_0000 * 0x1_0000_0000_0000_0000 <= psu < 0x8000_0000_0000_0000
            * 0x1_0000_0000_0000_0000) by (nonlinear_arith)
            requires
                psu == a as int * ((b as u64) as int),
                -0x8000_0000_0000_0000 <= a as int <= 0x7fff_ffff_ffff_ffff,
                0 <= (b as u64) as int <= 0xffff_ffff_ffff_ffff,
        ;
        lemma_div_in_i64_range(psu);
    }
    assert(((mulhu64(a, b) as u64) as int) * d + (pu % d) == pu) by {
        lemma_laws_bits();
        assert(0 <= pu < d * d) by (nonlinear_arith)
            requires
                pu == ((a as u64) as int) * ((b as u64) as int),
                d == 0x1_0000_0000_0000_0000,
                0 <= (a as u64) as int <= 0xffff_ffff_ffff_ffff,
                0 <= (b as u64) as int <= 0xffff_ffff_ffff_ffff,
        ;
        assert(0 <= pu / d < d) by {
            vstd::arithmetic::div_mod::lemma_div_pos_is_pos(pu, d);
            vstd::arithmetic::div_mod::lemma_multiply_divide_lt(pu, d, d);
        }
        assert((((pu / d) as u64) as i64) as u64 == (pu / d) as u64);
    }
}

/// The quotient by 2^64 of a product of two 64-bit values fits in an i64.
proof fn lemma_div_in_i64_range(p: int)
    requires
        -0x8000_0000_0000_0000 * 0x1_0000_0000_0000_0000 <= p,
        p < 0x8000_0000_0000_0000 * 0x1_0000_0000_0000_0000,
    ensures
        i64::MIN <= p / 0x1_0000_0000_0000_0000 <= i64::MAX,
        (p / 0x1_0000_0000_0000_0000) as i64 as int == p / 0x1_0000_0000_0000_0000,
{
    let d = 0x1_0000_0000_0000_0000int;
    vstd::arithmetic::div_mod::lemma_multiply_divide_lt(p, d, 0x8000_0000_0000_0000);
    assert(p / d >= -0x8000_0000_0000_0000) by {
        vstd::arithmetic::div_mod::lemma_div_is_ordered(
            -0x8000_0000_0000_0000 * 0x1_0000_0000_0000_0000,
            p,
            d,
        );
        vstd::arithmetic::div_mod::lemma_div_multiples_vanish(-0x8000_0000_0000_0000, d);
    }
}

} // verus!
