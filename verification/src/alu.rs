//! The arithmetic semantics of the executor, stated over mathematical
//! integers, with verified executable forms for the operations Rust's
//! checked arithmetic cannot express directly (truncated signed division
//! and the high halves of 128-bit products).
//!
//! All ALU operations wrap: two's-complement 64-bit (or 32-bit for the
//! W-forms), exactly as the ISA demands.

use vstd::arithmetic::div_mod::{
    lemma_div_is_ordered_by_denominator, lemma_div_nonincreasing, lemma_div_pos_is_pos,
    lemma_fundamental_div_mod, lemma_fundamental_div_mod_converse, lemma_multiply_divide_lt,
};
use vstd::bits::lemma_u128_shr_is_div;
use vstd::arithmetic::power2::lemma2_to64;
use vstd::prelude::*;

verus! {

pub open spec fn wadd64(a: i64, b: i64) -> i64 {
    vstd::wrapping::i64_specs::wrapping_add(a, b)
}

pub open spec fn wsub64(a: i64, b: i64) -> i64 {
    vstd::wrapping::i64_specs::wrapping_sub(a, b)
}

pub open spec fn wmul64(a: i64, b: i64) -> i64 {
    vstd::wrapping::i64_specs::wrapping_mul(a, b)
}

pub open spec fn wadd32(a: i32, b: i32) -> i32 {
    vstd::wrapping::i32_specs::wrapping_add(a, b)
}

pub open spec fn wsub32(a: i32, b: i32) -> i32 {
    vstd::wrapping::i32_specs::wrapping_sub(a, b)
}

pub open spec fn wmul32(a: i32, b: i32) -> i32 {
    vstd::wrapping::i32_specs::wrapping_mul(a, b)
}

/// Logical shift left, dropping bits shifted past bit 63.
pub open spec fn sll64(a: i64, sh: u64) -> i64
    recommends
        sh < 64,
{
    a << sh
}

/// Logical (zero-filling) shift right.
pub open spec fn srl64(a: i64, sh: u64) -> i64
    recommends
        sh < 64,
{
    ((a as u64) >> sh) as i64
}

/// Arithmetic (sign-filling) shift right.
pub open spec fn sra64(a: i64, sh: u64) -> i64
    recommends
        sh < 64,
{
    a >> sh
}

pub open spec fn sll32(a: i32, sh: u32) -> i32
    recommends
        sh < 32,
{
    a << sh
}

pub open spec fn srl32(a: i32, sh: u32) -> i32
    recommends
        sh < 32,
{
    ((a as u32) >> sh) as i32
}

pub open spec fn sra32(a: i32, sh: u32) -> i32
    recommends
        sh < 32,
{
    a >> sh
}

pub open spec fn abs64(a: i64) -> nat {
    if a >= 0 {
        a as nat
    } else {
        (-(a as int)) as nat
    }
}

pub open spec fn abs32(a: i32) -> nat {
    if a >= 0 {
        a as nat
    } else {
        (-(a as int)) as nat
    }
}

/// Truncated (round-toward-zero) signed division, as a mathematical integer.
pub open spec fn tdiv64(a: i64, b: i64) -> int
    recommends
        b != 0,
{
    if (a < 0) == (b < 0) {
        (abs64(a) / abs64(b)) as int
    } else {
        -((abs64(a) / abs64(b)) as int)
    }
}

pub open spec fn tdiv32(a: i32, b: i32) -> int
    recommends
        b != 0,
{
    if (a < 0) == (b < 0) {
        (abs32(a) / abs32(b)) as int
    } else {
        -((abs32(a) / abs32(b)) as int)
    }
}

/// `div`: division by zero gives -1, and the one signed overflow wraps.
pub open spec fn div64(a: i64, b: i64) -> i64 {
    if b == 0 {
        -1i64
    } else if a == i64::MIN && b == -1 {
        i64::MIN
    } else {
        tdiv64(a, b) as i64
    }
}

/// `rem`: division by zero gives the dividend, and the one signed overflow
/// gives 0.
pub open spec fn rem64(a: i64, b: i64) -> i64 {
    if b == 0 {
        a
    } else if a == i64::MIN && b == -1 {
        0
    } else {
        (a - b * tdiv64(a, b)) as i64
    }
}

/// `divu`: unsigned division of the bit patterns; division by zero gives
/// all ones.
pub open spec fn divu64(a: i64, b: i64) -> i64 {
    if b == 0 {
        -1i64
    } else {
        (((a as u64) / (b as u64)) as i64)
    }
}

/// `remu`: unsigned remainder of the bit patterns; division by zero gives
/// the dividend.
pub open spec fn remu64(a: i64, b: i64) -> i64 {
    if b == 0 {
        a
    } else {
        (((a as u64) % (b as u64)) as i64)
    }
}

pub open spec fn div32(a: i32, b: i32) -> i32 {
    if b == 0 {
        -1i32
    } else if a == i32::MIN && b == -1 {
        i32::MIN
    } else {
        tdiv32(a, b) as i32
    }
}

pub open spec fn rem32(a: i32, b: i32) -> i32 {
    if b == 0 {
        a
    } else if a == i32::MIN && b == -1 {
        0
    } else {
        (a - b * tdiv32(a, b)) as i32
    }
}

pub open spec fn divu32(a: i32, b: i32) -> i32 {
    if b == 0 {
        -1i32
    } else {
        (((a as u32) / (b as u32)) as i32)
    }
}

pub open spec fn remu32(a: i32, b: i32) -> i32 {
    if b == 0 {
        a
    } else {
        (((a as u32) % (b as u32)) as i32)
    }
}

/// The high 64 bits of the 128-bit signed product.
pub open spec fn mulh64(a: i64, b: i64) -> i64 {
    ((a as int * b as int) / 0x1_0000_0000_0000_0000) as i64
}

/// The high 64 bits of the 128-bit signed-by-unsigned product.
pub open spec fn mulhsu64(a: i64, b: i64) -> i64 {
    ((a as int * (b as u64) as int) / 0x1_0000_0000_0000_0000) as i64
}

/// The high 64 bits of the 128-bit unsigned product.
pub open spec fn mulhu64(a: i64, b: i64) -> i64 {
    ((((a as u64) as int * (b as u64) as int) / 0x1_0000_0000_0000_0000) as u64) as i64
}

/// Bounds of the mask operations the executor uses on shift sources, and
/// the agreement of zero tests across signed/unsigned views.
pub proof fn lemma_exec_bounds()
    by (bit_vector)
    ensures
        forall|x: u64| #[trigger] (x & 0x3f) < 64,
        forall|x: u32| #[trigger] (x & 0x1f) < 32,
        forall|x: i64| (#[trigger] (x as u64) == 0) <==> x == 0,
        forall|x: i32| (#[trigger] (x as u32) == 0) <==> x == 0,
{
}

pub fn exec_abs64(a: i64) -> (r: u64)
    ensures
        r as nat == abs64(a),
{
    if a >= 0 {
        a as u64
    } else if a == i64::MIN {
        0x8000_0000_0000_0000u64
    } else {
        (-a) as u64
    }
}

pub fn exec_abs32(a: i32) -> (r: u32)
    ensures
        r as nat == abs32(a),
{
    if a >= 0 {
        a as u32
    } else if a == i32::MIN {
        0x8000_0000u32
    } else {
        (-a) as u32
    }
}

pub fn exec_div64(a: i64, b: i64) -> (r: i64)
    ensures
        r == div64(a, b),
{
    if b == 0 {
        return -1;
    }
    if a == i64::MIN && b == -1 {
        return i64::MIN;
    }
    let au = exec_abs64(a);
    let bu = exec_abs64(b);
    let q = au / bu;
    proof {
        lemma_div_nonincreasing(au as int, bu as int);
        lemma_div_pos_is_pos(au as int, bu as int);
        if au == 0x8000_0000_0000_0000u64 && bu >= 2 {
            lemma_div_is_ordered_by_denominator(au as int, 2, bu as int);
        }
    }
    if (a < 0) != (b < 0) {
        if q == 0x8000_0000_0000_0000u64 {
            i64::MIN
        } else {
            -(q as i64)
        }
    } else {
        q as i64
    }
}

pub fn exec_rem64(a: i64, b: i64) -> (r: i64)
    ensures
        r == rem64(a, b),
{
    if b == 0 {
        return a;
    }
    if a == i64::MIN && b == -1 {
        return 0;
    }
    let au = exec_abs64(a);
    let bu = exec_abs64(b);
    let q = au / bu;
    let rm = au % bu;
    proof {
        lemma_fundamental_div_mod(au as int, bu as int);
        let ai = a as int;
        let bi = b as int;
        let qi = q as int;
        let ri = rm as int;
        assert(a as int - b as int * tdiv64(a, b) == if a >= 0 {
            ri
        } else {
            -ri
        }) by (nonlinear_arith)
            requires
                au as int == abs64(a),
                bu as int == abs64(b),
                abs64(a) == bu as int * qi + ri,
                tdiv64(a, b) == if (a < 0) == (b < 0) {
                    qi
                } else {
                    -qi
                },
                abs64(a) == if a >= 0 {
                    a as int
                } else {
                    -(a as int)
                },
                abs64(b) == if b >= 0 {
                    b as int
                } else {
                    -(b as int)
                },
                b != 0,
        ;
    }
    if a < 0 {
        -(rm as i64)
    } else {
        rm as i64
    }
}

pub fn exec_div32(a: i32, b: i32) -> (r: i32)
    ensures
        r == div32(a, b),
{
    if b == 0 {
        return -1;
    }
    if a == i32::MIN && b == -1 {
        return i32::MIN;
    }
    let au = exec_abs32(a);
    let bu = exec_abs32(b);
    let q = au / bu;
    proof {
        lemma_div_nonincreasing(au as int, bu as int);
        lemma_div_pos_is_pos(au as int, bu as int);
        if au == 0x8000_0000u32 && bu >= 2 {
            lemma_div_is_ordered_by_denominator(au as int, 2, bu as int);
        }
    }
    if (a < 0) != (b < 0) {
        if q == 0x8000_0000u32 {
            i32::MIN
        } else {
            -(q as i32)
        }
    } else {
        q as i32
    }
}

pub fn exec_rem32(a: i32, b: i32) -> (r: i32)
    ensures
        r == rem32(a, b),
{
    if b == 0 {
        return a;
    }
    if a == i32::MIN && b == -1 {
        return 0;
    }
    let au = exec_abs32(a);
    let bu = exec_abs32(b);
    let q = au / bu;
    let rm = au % bu;
    proof {
        lemma_fundamental_div_mod(au as int, bu as int);
        let qi = q as int;
        let ri = rm as int;
        assert(a as int - b as int * tdiv32(a, b) == if a >= 0 {
            ri
        } else {
            -ri
        }) by (nonlinear_arith)
            requires
                au as int == abs32(a),
                bu as int == abs32(b),
                abs32(a) == bu as int * qi + ri,
                tdiv32(a, b) == if (a < 0) == (b < 0) {
                    qi
                } else {
                    -qi
                },
                abs32(a) == if a >= 0 {
                    a as int
                } else {
                    -(a as int)
                },
                abs32(b) == if b >= 0 {
                    b as int
                } else {
                    -(b as int)
                },
                b != 0,
        ;
    }
    if a < 0 {
        -(rm as i32)
    } else {
        rm as i32
    }
}

/// Floor division of a 128-bit value by 2^64.
fn floor_div_two64(p: i128) -> (r: i64)
    requires
        p != i128::MIN,
    ensures
        r as int == (p as int) / 0x1_0000_0000_0000_0000,
{
    let d: u128 = 0x1_0000_0000_0000_0000;
    let ghost di = 0x1_0000_0000_0000_0000int;
    if p >= 0 {
        let q = (p as u128) / d;
        proof {
            lemma_div_pos_is_pos(p as int, di);
            lemma_multiply_divide_lt(p as int, di, 0x8000_0000_0000_0000);
        }
        q as i64
    } else {
        let np = (-p) as u128;
        let q = (np + 0xffff_ffff_ffff_ffffu128) / d;
        proof {
            let npi = np as int;
            let m = npi / di;
            let s = npi % di;
            lemma_fundamental_div_mod(npi, di);
            if s == 0 {
                assert(p as int == (-m) * di + 0) by (nonlinear_arith)
                    requires
                        npi == di * m + 0,
                        p as int == -npi,
                ;
                lemma_fundamental_div_mod_converse(p as int, di, -m, 0);
                assert(npi + di - 1 == m * di + (di - 1)) by (nonlinear_arith)
                    requires
                        npi == di * m + 0,
                ;
                lemma_fundamental_div_mod_converse(npi + di - 1, di, m, di - 1);
            } else {
                assert(p as int == (-(m + 1)) * di + (di - s)) by (nonlinear_arith)
                    requires
                        npi == di * m + s,
                        p as int == -npi,
                ;
                lemma_fundamental_div_mod_converse(p as int, di, -(m + 1), di - s);
                assert(npi + di - 1 == (m + 1) * di + (s - 1)) by (nonlinear_arith)
                    requires
                        npi == di * m + s,
                ;
                lemma_fundamental_div_mod_converse(npi + di - 1, di, m + 1, s - 1);
            }
            assert(q as int == -((p as int) / di));
            lemma_multiply_divide_lt(npi + di - 1, di, 0x8000_0000_0000_0001);
        }
        if q == 0x8000_0000_0000_0000u128 {
            i64::MIN
        } else {
            -(q as i64)
        }
    }
}

pub fn exec_mulh64(a: i64, b: i64) -> (r: i64)
    ensures
        r == mulh64(a, b),
{
    proof {
        assert(-0x4000_0000_0000_0000_0000_0000_0000_0000 <= a as int * b as int
            <= 0x4000_0000_0000_0000_0000_0000_0000_0000) by (nonlinear_arith)
            requires
                -0x8000_0000_0000_0000 <= a as int <= 0x7fff_ffff_ffff_ffff,
                -0x8000_0000_0000_0000 <= b as int <= 0x7fff_ffff_ffff_ffff,
        ;
    }
    let p = (a as i128) * (b as i128);
    floor_div_two64(p)
}

pub fn exec_mulhsu64(a: i64, b: i64) -> (r: i64)
    ensures
        r == mulhsu64(a, b),
{
    let bu = #[verifier::truncate] (b as u64);
    proof {
        assert(-0x7fff_ffff_ffff_ffff_ffff_ffff_ffff_ffff <= a as int * bu as int
            <= 0x7fff_ffff_ffff_ffff_ffff_ffff_ffff_ffff) by (nonlinear_arith)
            requires
                -0x8000_0000_0000_0000 <= a as int <= 0x7fff_ffff_ffff_ffff,
                0 <= bu as int <= 0xffff_ffff_ffff_ffff,
        ;
    }
    let p = (a as i128) * (bu as i128);
    floor_div_two64(p)
}

pub fn exec_mulhu64(a: i64, b: i64) -> (r: i64)
    ensures
        r == mulhu64(a, b),
{
    let au = #[verifier::truncate] (a as u64);
    let bu = #[verifier::truncate] (b as u64);
    proof {
        assert(au as int * bu as int <= 0xffff_ffff_ffff_ffff_ffff_ffff_ffff_ffff)
            by (nonlinear_arith)
            requires
                0 <= au as int <= 0xffff_ffff_ffff_ffff,
                0 <= bu as int <= 0xffff_ffff_ffff_ffff,
        ;
    }
    let p = (au as u128) * (bu as u128);
    let q = p >> 64u128;
    proof {
        lemma_u128_shr_is_div(p, 64);
        lemma2_to64();
        lemma_div_pos_is_pos(p as int, 0x1_0000_0000_0000_0000);
        lemma_multiply_divide_lt(p as int, 0x1_0000_0000_0000_0000, 0x1_0000_0000_0000_0000);
    }
    #[verifier::truncate] ((q as u64) as i64)
}

} // verus!
