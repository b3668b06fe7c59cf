//! Verified text utilities: decimal and hexadecimal rendering of integers,
//! space padding, and recognition of positive decimal numerals (used for
//! local-label conventions in the disassembler).

use vstd::prelude::*;
use vstd::string::StringExecFns;

verus! {

/// The digit character for a value in [0, 15].
pub open spec fn digit_char(d: nat) -> char {
    if d == 0 {
        '0'
    } else if d == 1 {
        '1'
    } else if d == 2 {
        '2'
    } else if d == 3 {
        '3'
    } else if d == 4 {
        '4'
    } else if d == 5 {
        '5'
    } else if d == 6 {
        '6'
    } else if d == 7 {
        '7'
    } else if d == 8 {
        '8'
    } else if d == 9 {
        '9'
    } else if d == 10 {
        'a'
    } else if d == 11 {
        'b'
    } else if d == 12 {
        'c'
    } else if d == 13 {
        'd'
    } else if d == 14 {
        'e'
    } else {
        'f'
    }
}

/// The decimal numeral of a natural number, most significant digit first.
pub open spec fn dec_nat(n: nat) -> Seq<char>
    decreases n,
{
    if n < 10 {
        seq![digit_char(n)]
    } else {
        dec_nat(n / 10) + seq![digit_char(n % 10)]
    }
}

/// The decimal numeral of a signed number: a minus sign for negatives.
pub open spec fn dec_int(n: int) -> Seq<char> {
    if n < 0 {
        seq!['-'] + dec_nat((-n) as nat)
    } else {
        dec_nat(n as nat)
    }
}

/// The lower-case hexadecimal numeral of a natural number, no leading zeros.
pub open spec fn hex_nat(n: nat) -> Seq<char>
    decreases n,
{
    if n < 16 {
        seq![digit_char(n)]
    } else {
        hex_nat(n / 16) + seq![digit_char(n % 16)]
    }
}

/// `n` spaces.
pub open spec fn spaces(n: nat) -> Seq<char> {
    Seq::new(n, |i: int| ' ')
}

/// `s` padded with spaces on the right to at least `w` characters.
pub open spec fn pad_right_s(s: Seq<char>, w: nat) -> Seq<char> {
    if s.len() >= w {
        s
    } else {
        s + spaces((w - s.len()) as nat)
    }
}

/// `s` padded with spaces on the left to at least `w` characters.
pub open spec fn pad_left_s(s: Seq<char>, w: nat) -> Seq<char> {
    if s.len() >= w {
        s
    } else {
        spaces((w - s.len()) as nat) + s
    }
}

fn digit_str(d: u64) -> (r: &'static str)
    requires
        d < 16,
    ensures
        r@ == seq![digit_char(d as nat)],
{
    proof {
        reveal_strlit("0");
        reveal_strlit("1");
        reveal_strlit("2");
        reveal_strlit("3");
        reveal_strlit("4");
        reveal_strlit("5");
        reveal_strlit("6");
        reveal_strlit("7");
        reveal_strlit("8");
        reveal_strlit("9");
        reveal_strlit("a");
        reveal_strlit("b");
        reveal_strlit("c");
        reveal_strlit("d");
        reveal_strlit("e");
        reveal_strlit("f");
    }
    let r = if d == 0 {
        "0"
    } else if d == 1 {
        "1"
    } else if d == 2 {
        "2"
    } else if d == 3 {
        "3"
    } else if d == 4 {
        "4"
    } else if d == 5 {
        "5"
    } else if d == 6 {
        "6"
    } else if d == 7 {
        "7"
    } else if d == 8 {
        "8"
    } else if d == 9 {
        "9"
    } else if d == 10 {
        "a"
    } else if d == 11 {
        "b"
    } else if d == 12 {
        "c"
    } else if d == 13 {
        "d"
    } else if d == 14 {
        "e"
    } else {
        "f"
    };
    proof {
        assert(r@ =~= seq![digit_char(d as nat)]);
    }
    r
}

/// Render `n` in decimal.
pub fn u64_to_dec(n: u64) -> (r: String)
    ensures
        r@ == dec_nat(n as nat),
    decreases n,
{
    if n < 10 {
        String::from_str(digit_str(n))
    } else {
        let r = u64_to_dec(n / 10);
        let r = r.concat(digit_str(n % 10));
        proof {
            assert(r@ =~= dec_nat(n as nat));
        }
        r
    }
}

/// Render `n` in decimal, with a minus sign if negative.
pub fn i64_to_dec(n: i64) -> (r: String)
    ensures
        r@ == dec_int(n as int),
{
    if n >= 0 {
        u64_to_dec(n as u64)
    } else {
        let mag: u64 = if n == i64::MIN {
            0x8000_0000_0000_0000u64
        } else {
            (-n) as u64
        };
        let r = String::from_str("-").concat(u64_to_dec(mag).as_str());
        proof {
            reveal_strlit("-");
            assert("-"@ =~= seq!['-']);
            assert(r@ =~= dec_int(n as int));
        }
        r
    }
}

/// Render `n` in lower-case hexadecimal, without a `0x` prefix.
pub fn u64_to_hex(n: u64) -> (r: String)
    ensures
        r@ == hex_nat(n as nat),
    decreases n,
{
    if n < 16 {
        String::from_str(digit_str(n))
    } else {
        let r = u64_to_hex(n / 16);
        let r = r.concat(digit_str(n % 16));
        proof {
            assert(r@ =~= hex_nat(n as nat));
        }
        r
    }
}

/// `n` spaces, as a string.
#[verifier::loop_isolation(false)]
pub fn space_string(n: usize) -> (r: String)
    ensures
        r@ == spaces(n as nat),
{
    let mut r = String::new();
    let mut i: usize = 0;
    proof {
        assert(r@ =~= spaces(0));
    }
    while i < n
        invariant
            i <= n,
            r@ == spaces(i as nat),
        decreases n - i,
    {
        r.append(" ");
        i += 1;
        proof {
            reveal_strlit(" ");
            assert(" "@ =~= seq![' ']);
            assert(spaces(i as nat) =~= spaces((i - 1) as nat) + seq![' ']);
        }
    }
    r
}

/// Append spaces to `s` until it is at least `w` characters long;
/// `s_chars` is the character length of `s`.
pub fn pad_right(s: String, w: usize, s_chars: usize) -> (r: String)
    requires
        s_chars == s@.len(),
    ensures
        r@ == pad_right_s(s@, w as nat),
{
    let ghost s0 = s@;
    if s_chars >= w {
        return s;
    }
    let r = s.concat(space_string(w - s_chars).as_str());
    proof {
        assert(r@ =~= pad_right_s(s0, w as nat));
    }
    r
}

/// Prepend spaces to `s` until it is at least `w` characters long;
/// `s_chars` is the character length of `s`.
pub fn pad_left(s: String, w: usize, s_chars: usize) -> (r: String)
    requires
        s_chars == s@.len(),
    ensures
        r@ == pad_left_s(s@, w as nat),
{
    let ghost s0 = s@;
    if s_chars >= w {
        return s;
    }
    let r = space_string(w - s_chars).concat(s.as_str());
    proof {
        assert(r@ =~= pad_left_s(s0, w as nat));
    }
    r
}

/// A decimal digit.
pub open spec fn is_digit(c: char) -> bool {
    48 <= c as u32 <= 57
}

pub open spec fn digit_val(c: char) -> int {
    c as u32 - 48
}

pub open spec fn all_digits(s: Seq<char>) -> bool {
    forall|i: int| 0 <= i < s.len() ==> is_digit(s[i])
}

/// The value of a digit string, most significant digit first.
pub open spec fn digits_val(s: Seq<char>) -> int
    decreases s.len(),
{
    if s.len() == 0 {
        0
    } else {
        digits_val(s.drop_last()) * 10 + digit_val(s.last())
    }
}

/// The digits of a numeral, with an optional leading plus sign stripped.
pub open spec fn numeral_digits(s: Seq<char>) -> Seq<char> {
    if s.len() > 0 && s[0] == '+' {
        s.skip(1)
    } else {
        s
    }
}

/// Whether `s` is a decimal numeral for a positive value that fits in an
/// `i64`: an optional plus sign, then digits only.
pub open spec fn parses_positive(s: Seq<char>) -> bool {
    let ds = numeral_digits(s);
    ds.len() > 0 && all_digits(ds) && 0 < digits_val(ds) <= i64::MAX
}

pub proof fn lemma_digits_val_nonneg(s: Seq<char>)
    requires
        all_digits(s),
    ensures
        digits_val(s) >= 0,
    decreases s.len(),
{
    if s.len() > 0 {
        assert(all_digits(s.drop_last())) by {
            assert(forall|i: int| 0 <= i < s.len() - 1 ==> s.drop_last()[i] == s[i]);
        }
        lemma_digits_val_nonneg(s.drop_last());
    }
}

pub proof fn lemma_digits_prefix(s: Seq<char>, j: int)
    requires
        all_digits(s),
        0 <= j <= s.len(),
    ensures
        digits_val(s.take(j)) <= digits_val(s),
    decreases s.len() - j,
{
    if j < s.len() {
        lemma_digits_prefix(s, j + 1);
        assert(s.take(j + 1).drop_last() =~= s.take(j));
        assert(all_digits(s.take(j))) by {
            assert(forall|i: int| 0 <= i < j ==> s.take(j)[i] == s[i]);
        }
        lemma_digits_val_nonneg(s.take(j));
        assert(digits_val(s.take(j + 1)) == digits_val(s.take(j)) * 10 + digit_val(s[j]));
    } else {
        assert(s.take(j) =~= s);
    }
}

/// Recognize a positive decimal numeral, exactly as the local-label
/// convention of the disassembler needs it: `Some` iff `s` is an optional
/// plus sign followed by digits whose value is positive and fits an `i64`.
#[verifier::loop_isolation(false)]
pub fn parse_positive(s: &str) -> (r: Option<i64>)
    ensures
        parses_positive(s@) ==> r == Some(digits_val(numeral_digits(s@)) as i64),
        !parses_positive(s@) ==> r is None,
{
    let n = s.unicode_len();
    if n == 0 {
        return None;
    }
    let first = s.get_char(0);
    let start: usize = if first == '+' {
        1
    } else {
        0
    };
    let ghost ds = numeral_digits(s@);
    proof {
        assert(ds =~= s@.skip(start as int));
    }
    if start == n {
        return None;
    }
    let mut i: usize = start;
    let mut val: u64 = 0;
    while i < n
        invariant
            start <= i <= n,
            n == s@.len(),
            ds == s@.skip(start as int),
            all_digits(ds.take(i - start)),
            val <= 0x7fff_ffff_ffff_ffff,
            val as int == digits_val(ds.take(i - start)),
        decreases n - i,
    {
        let c = s.get_char(i);
        if !(c >= '0' && c <= '9') {
            proof {
                assert(!is_digit(ds[i - start]));
            }
            return None;
        }
        let d = (c as u32 - 48) as u64;
        if val > (0x7fff_ffff_ffff_ffffu64 - d) / 10 {
            // the value exceeds i64::MAX; later digits only increase it
            proof {
                assert(ds.take(i - start + 1).drop_last() =~= ds.take(i - start));
                vstd::arithmetic::div_mod::lemma_fundamental_div_mod(
                    0x7fff_ffff_ffff_ffff - d,
                    10,
                );
                assert(digits_val(ds.take(i - start + 1)) > i64::MAX);
                if parses_positive(s@) {
                    lemma_digits_prefix(ds, i - start + 1);
                }
            }
            return None;
        }
        proof {
            assert(ds.take(i - start + 1).drop_last() =~= ds.take(i - start));
        }
        val = val * 10 + d;
        i += 1;
    }
    proof {
        assert(ds.take(n - start) =~= ds);
        lemma_digits_val_nonneg(ds);
    }
    if val == 0 {
        return None;
    }
    Some(val as i64)
}

} // verus!
