use vstd::prelude::*;
use vstd::arithmetic::div_mod::lemma_div_decreases;
use vstd::arithmetic::div_mod::lemma_fundamental_div_mod;
use vstd::arithmetic::div_mod::lemma_multiply_divide_lt;

verus! {

/// Whether `c` is an ASCII decimal digit.
pub open spec fn is_dec_digit(c: char) -> bool {
    48 <= c as u32 <= 57
}

/// The numeric value of a decimal digit character.
pub open spec fn digit_val(c: char) -> nat {
    (c as u32 - 48) as nat
}

/// The decimal digit character for a value below ten.
pub open spec fn digit_char(d: nat) -> char {
    ((d + 48) as u8) as char
}

/// The decimal digits of `n`, most significant first, with no sign and no
/// leading zero except for `n == 0` itself.
pub open spec fn dec_digits(n: nat) -> Seq<char>
    decreases n,
{
    if n < 10 {
        seq![digit_char(n)]
    } else {
        dec_digits(n / 10).push(digit_char(n % 10))
    }
}

/// The canonical decimal rendering of `v`: a minus sign for negative values,
/// then the digits of the magnitude.
pub open spec fn dec_str(v: int) -> Seq<char> {
    if v < 0 {
        seq!['-'] + dec_digits((-v) as nat)
    } else {
        dec_digits(v as nat)
    }
}

/// Whether every character of `s` is a decimal digit.
pub open spec fn all_digits(s: Seq<char>) -> bool {
    forall|i: int| 0 <= i < s.len() ==> is_dec_digit(s[i])
}

/// The value of a digit string read most significant digit first.
pub open spec fn digits_value(s: Seq<char>) -> nat
    decreases s.len(),
{
    if s.len() == 0 {
        0
    } else {
        digits_value(s.drop_last()) * 10 + digit_val(s.last())
    }
}

/// Ten to the power `k`.
pub open spec fn pow10(k: nat) -> nat
    decreases k,
{
    if k == 0 {
        1
    } else {
        10 * pow10((k - 1) as nat)
    }
}

/// What the answer parser accepts: an optional single `+` or `-` sign, then
/// one to nineteen decimal digits (leading zeros allowed), whose signed value
/// fits in a 64-bit integer. Anything else does not parse.
pub open spec fn parse_i64_spec(s: Seq<char>) -> Option<int> {
    let signed = s.len() > 0 && (s[0] == '-' || s[0] == '+');
    let neg = s.len() > 0 && s[0] == '-';
    let ds = if signed { s.subrange(1, s.len() as int) } else { s };
    if 1 <= ds.len() <= 19 && all_digits(ds) {
        let v = if neg { -(digits_value(ds) as int) } else { digits_value(ds) as int };
        if i64::MIN <= v <= i64::MAX {
            Some(v)
        } else {
            None
        }
    } else {
        None
    }
}

/// What a bound field must look like: one to ten decimal digits whose value
/// fits in an unsigned 32-bit integer; no sign is accepted.
pub open spec fn parse_u32_spec(s: Seq<char>) -> Option<u32> {
    if 1 <= s.len() <= 10 && all_digits(s) && digits_value(s) <= u32::MAX {
        Some(digits_value(s) as u32)
    } else {
        None
    }
}

proof fn lemma_pow10_monotone(a: nat, b: nat)
    requires
        a <= b,
    ensures
        pow10(a) <= pow10(b),
    decreases b,
{
    if a < b {
        lemma_pow10_monotone(a, (b - 1) as nat);
    }
}

proof fn lemma_pow10_18()
    ensures
        pow10(18) == 1000000000000000000,
        pow10(19) == 10000000000000000000,
{
    reveal_with_fuel(pow10, 21);
}

/// Reads the digit characters of `s` between `from` and `to` as a number,
/// or reports that a character there is not a digit.
fn scan_digits(s: &Vec<char>, from: usize, to: usize) -> (r: Option<u64>)
    requires
        from <= to <= s@.len(),
        to - from <= 19,
    ensures
        match r {
            Some(v) => all_digits(s@.subrange(from as int, to as int))
                && v == digits_value(s@.subrange(from as int, to as int)),
            None => !all_digits(s@.subrange(from as int, to as int)),
        },
{
    let mut i: usize = from;
    let mut acc: u64 = 0;
    while i < to
        invariant
            from <= i <= to <= s@.len(),
            to - from <= 19,
            forall|j: int| from <= j < i ==> is_dec_digit(s@[j]),
            acc == digits_value(s@.subrange(from as int, i as int)),
            acc < pow10((i - from) as nat),
        decreases to - i,
    {
        let c = s[i];
        let u = c as u32;
        if u < 48 || u > 57 {
            proof {
                assert(s@.subrange(from as int, to as int)[i - from] == s@[i as int]);
            }
            return None;
        }
        proof {
            lemma_pow10_monotone((i - from) as nat, 18);
            lemma_pow10_18();
            assert(s@.subrange(from as int, i + 1).drop_last() =~= s@.subrange(
                from as int,
                i as int,
            ));
        }
        let d = (u - 48) as u64;
        acc = acc * 10 + d;
        i = i + 1;
    }
    proof {
        assert(s@.subrange(from as int, i as int) =~= s@.subrange(from as int, to as int));
        assert forall|j: int| 0 <= j < to - from implies is_dec_digit(
            #[trigger] s@.subrange(from as int, to as int)[j],
        ) by {
            assert(s@.subrange(from as int, to as int)[j] == s@[from + j]);
        }
    }
    Some(acc)
}

/// Parses an in-progress answer to a signed 64-bit integer, following
/// exactly the policy of `parse_i64_spec`.
pub fn parse_i64(s: &Vec<char>) -> (r: Option<i64>)
    ensures
        match r {
            Some(v) => parse_i64_spec(s@) == Some(v as int),
            None => parse_i64_spec(s@) is None,
        },
{
    let n = s.len();
    if n == 0 {
        return None;
    }
    let c0 = s[0];
    let neg = c0 == '-';
    let start: usize = if c0 == '-' || c0 == '+' {
        1
    } else {
        0
    };
    proof {
        if start == 0 {
            assert(s@.subrange(0, s@.len() as int) =~= s@);
        }
    }
    if n - start < 1 || n - start > 19 {
        return None;
    }
    let val = match scan_digits(s, start, n) {
        None => {
            return None;
        },
        Some(v) => v,
    };
    if neg {
        if val > 9223372036854775808u64 {
            return None;
        }
        if val == 9223372036854775808u64 {
            Some(i64::MIN)
        } else {
            Some(-(val as i64))
        }
    } else {
        if val > 9223372036854775807u64 {
            return None;
        }
        Some(val as i64)
    }
}

/// Parses a bound field to an unsigned 32-bit integer, following exactly
/// the policy of `parse_u32_spec`.
pub fn parse_u32(s: &Vec<char>) -> (r: Option<u32>)
    ensures
        r == parse_u32_spec(s@),
{
    let n = s.len();
    proof {
        assert(s@.subrange(0, s@.len() as int) =~= s@);
    }
    if n < 1 || n > 10 {
        return None;
    }
    match scan_digits(s, 0, n) {
        None => None,
        Some(v) => if v > 0xFFFFFFFFu64 {
            None
        } else {
            Some(v as u32)
        },
    }
}

fn digit_char_exec(d: u64) -> (c: char)
    requires
        d < 10,
    ensures
        c == digit_char(d as nat),
{
    (d as u8 + 48) as char
}

/// Appends the decimal digits of `n` to `out`, most significant first.
fn push_dec_digits(n: u64, out: &mut Vec<char>)
    ensures
        final(out)@ == old(out)@ + dec_digits(n as nat),
    decreases n,
{
    if n < 10 {
        out.push(digit_char_exec(n));
        proof {
            assert(out@ =~= old(out)@ + dec_digits(n as nat));
        }
    } else {
        proof {
            lemma_div_decreases(n as int, 10);
        }
        push_dec_digits(n / 10, out);
        out.push(digit_char_exec(n % 10));
        proof {
            assert(out@ =~= old(out)@ + dec_digits(n as nat));
        }
    }
}

/// Renders `v` as its canonical decimal character sequence.
pub fn i64_to_chars(v: i64) -> (out: Vec<char>)
    ensures
        out@ == dec_str(v as int),
{
    let mut out: Vec<char> = Vec::new();
    if v < 0 {
        out.push('-');
        let m: u64 = ((-(v + 1)) as u64) + 1;
        push_dec_digits(m, &mut out);
        proof {
            assert(out@ =~= dec_str(v as int));
        }
    } else {
        push_dec_digits(v as u64, &mut out);
        proof {
            assert(out@ =~= dec_str(v as int));
        }
    }
    out
}

proof fn lemma_dec_digits_are_digits(n: nat)
    ensures
        1 <= dec_digits(n).len(),
        all_digits(dec_digits(n)),
    decreases n,
{
    if n >= 10 {
        lemma_dec_digits_are_digits(n / 10);
        assert forall|i: int| 0 <= i < dec_digits(n).len() implies is_dec_digit(
            #[trigger] dec_digits(n)[i],
        ) by {
            if i < dec_digits(n).len() - 1 {
                assert(dec_digits(n)[i] == dec_digits(n / 10)[i]);
            }
        }
    }
}

proof fn lemma_digit_roundtrip(d: nat)
    requires
        d < 10,
    ensures
        digit_val(digit_char(d)) == d,
{
    assert(digit_char(d) as u32 == d + 48);
}

proof fn lemma_dec_digits_value(n: nat)
    ensures
        digits_value(dec_digits(n)) == n,
    decreases n,
{
    if n < 10 {
        lemma_digit_roundtrip(n);
        assert(dec_digits(n).drop_last() =~= Seq::<char>::empty());
        assert(digits_value(dec_digits(n)) == digits_value(dec_digits(n).drop_last()) * 10
            + digit_val(dec_digits(n).last()));
    } else {
        lemma_dec_digits_value(n / 10);
        lemma_digit_roundtrip(n % 10);
        assert(dec_digits(n).drop_last() =~= dec_digits(n / 10));
        assert(digits_value(dec_digits(n)) == digits_value(dec_digits(n / 10)) * 10
            + digit_val(dec_digits(n).last()));
        lemma_fundamental_div_mod(n as int, 10);
    }
}

proof fn lemma_dec_digits_len(n: nat, k: nat)
    requires
        1 <= k,
        n < pow10(k),
    ensures
        dec_digits(n).len() <= k,
    decreases n,
{
    if n >= 10 {
        lemma_multiply_divide_lt(n as int, 10, pow10((k - 1) as nat) as int);
        lemma_div_decreases(n as int, 10);
        lemma_dec_digits_len(n / 10, (k - 1) as nat);
    }
}

/// The formatter and the parser agree: the canonical decimal rendering of
/// any 64-bit integer parses back to that same integer.
pub proof fn lemma_parse_dec_roundtrip(v: i64)
    ensures
        parse_i64_spec(dec_str(v as int)) == Some(v as int),
{
    lemma_pow10_18();
    if v < 0 {
        let m = (-(v as int)) as nat;
        lemma_dec_digits_are_digits(m);
        lemma_dec_digits_value(m);
        lemma_dec_digits_len(m, 19);
        let s = dec_str(v as int);
        assert(s[0] == '-');
        assert(s.subrange(1, s.len() as int) =~= dec_digits(m));
    } else {
        let m = v as nat;
        lemma_dec_digits_are_digits(m);
        lemma_dec_digits_value(m);
        lemma_dec_digits_len(m, 19);
        let s = dec_str(v as int);
        assert(is_dec_digit(s[0]));
        assert(s[0] != '-' && s[0] != '+');
    }
}

} // verus!
