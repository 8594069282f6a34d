//! Byte counts: parsing decimal strings and rendering two-decimal GiB values.
//!
//! Size fields arrive as decimal strings. A string that is not a plain run of
//! ASCII digits counts as zero; a value too large for `u64` saturates. The
//! GiB rendering divides by 1024^3 and rounds half-up to hundredths.

use vstd::prelude::*;

verus! {

/// True when `c` is an ASCII decimal digit.
pub open spec fn is_digit_char(c: char) -> bool {
    48 <= c as u32 <= 57
}

/// Numeric value of an ASCII digit.
pub open spec fn digit_val(c: char) -> int {
    c as u32 - 48
}

/// A non-empty string of ASCII digits.
pub open spec fn is_decimal_digits(s: Seq<char>) -> bool {
    s.len() > 0 && forall|i: int| 0 <= i < s.len() ==> is_digit_char(#[trigger] s[i])
}

/// Unbounded value denoted by a digit string.
pub open spec fn decimal_value(s: Seq<char>) -> int
    decreases s.len(),
{
    if s.len() == 0 {
        0
    } else {
        decimal_value(s.drop_last()) * 10 + digit_val(s.last())
    }
}

/// Value of a digit string, saturating at `u64::MAX`.
pub open spec fn saturating_decimal_value(s: Seq<char>) -> u64
    decreases s.len(),
{
    if s.len() == 0 {
        0u64
    } else {
        let p = saturating_decimal_value(s.drop_last());
        let d = digit_val(s.last());
        if p > (u64::MAX - d) / 10 {
            u64::MAX
        } else {
            (p * 10 + d) as u64
        }
    }
}

/// What `parse_decimal_or_zero` returns: the saturated value of a digit
/// string, and zero for anything else.
pub open spec fn spec_parse_decimal_or_zero(s: Seq<char>) -> u64 {
    if is_decimal_digits(s) {
        saturating_decimal_value(s)
    } else {
        0u64
    }
}

pub proof fn lemma_decimal_value_nonneg(s: Seq<char>)
    requires
        forall|i: int| 0 <= i < s.len() ==> is_digit_char(#[trigger] s[i]),
    ensures
        decimal_value(s) >= 0,
    decreases s.len(),
{
    if s.len() > 0 {
        lemma_decimal_value_nonneg(s.drop_last());
    }
}

/// Saturation computes the minimum of the denoted value and `u64::MAX`.
proof fn lemma_saturating_is_min(s: Seq<char>)
    requires
        forall|i: int| 0 <= i < s.len() ==> is_digit_char(#[trigger] s[i]),
    ensures
        decimal_value(s) <= u64::MAX ==> saturating_decimal_value(s) == decimal_value(s),
        decimal_value(s) > u64::MAX ==> saturating_decimal_value(s) == u64::MAX,
    decreases s.len(),
{
    if s.len() > 0 {
        let q = s.drop_last();
        lemma_saturating_is_min(q);
        lemma_decimal_value_nonneg(q);
        let d = digit_val(s.last());
        let p = decimal_value(q);
        vstd::arithmetic::div_mod::lemma_fundamental_div_mod(u64::MAX - d, 10);
        assert(10 * ((u64::MAX - d) / 10) <= u64::MAX - d);
        assert(u64::MAX - d < 10 * ((u64::MAX - d) / 10) + 10);
        if p <= u64::MAX {
            assert(saturating_decimal_value(q) == p);
            if p > (u64::MAX - d) / 10 {
                assert(10 * p >= 10 * ((u64::MAX - d) / 10) + 10) by (nonlinear_arith)
                    requires p >= (u64::MAX - d) / 10 + 1;
                assert(p * 10 + d > u64::MAX);
            } else {
                assert(10 * p <= 10 * ((u64::MAX - d) / 10)) by (nonlinear_arith)
                    requires p <= (u64::MAX - d) / 10;
                assert(p * 10 + d <= u64::MAX);
            }
        } else {
            assert(saturating_decimal_value(q) == u64::MAX);
            assert(u64::MAX > (u64::MAX - d) / 10);
            assert(10 * p >= p) by (nonlinear_arith)
                requires p >= 0;
            assert(p * 10 + d > u64::MAX);
        }
    }
}

/// Parses a byte count given as a decimal string. Returns zero when the
/// string is empty or holds any non-digit character; saturates at `u64::MAX`.
pub fn parse_decimal_or_zero(s: &str) -> (r: u64)
    ensures
        r == spec_parse_decimal_or_zero(s@),
{
    let n = s.unicode_len();
    if n == 0 {
        return 0;
    }
    let mut v: u64 = 0;
    let mut i: usize = 0;
    while i < n
        invariant
            0 < n == s@.len(),
            0 <= i <= n,
            forall|j: int| 0 <= j < i ==> is_digit_char(#[trigger] s@[j]),
            v == saturating_decimal_value(s@.take(i as int)),
        decreases n - i,
    {
        let c = s.get_char(i);
        let cv = c as u32;
        if cv < 48 || cv > 57 {
            assert(!is_decimal_digits(s@));
            return 0;
        }
        let d = (cv - 48) as u64;
        if v > (u64::MAX - d) / 10 {
            v = u64::MAX;
        } else {
            v = v * 10 + d;
        }
        proof {
            assert(s@.take(i + 1).drop_last() =~= s@.take(i as int));
            assert(s@.take(i + 1).last() == s@[i as int]);
        }
        i += 1;
    }
    proof {
        assert(s@.take(n as int) =~= s@);
    }
    v
}

/// Hundredths of GiB denoted by a byte count, rounded half-up.
pub open spec fn spec_gib_hundredths(bytes: u64) -> int {
    (bytes * 100 + 536870912) / 1073741824
}

/// Converts a byte count to hundredths of a GiB (1024^3 bytes), half-up.
pub fn gib_hundredths(bytes: u64) -> (r: u64)
    ensures
        r == spec_gib_hundredths(bytes),
{
    let w: u128 = (bytes as u128) * 100 + 536870912;
    let q: u128 = w / 1073741824;
    proof {
        assert(w / 1073741824 <= u64::MAX) by (nonlinear_arith)
            requires w <= u64::MAX * 100 + 536870912;
    }
    q as u64
}

/// Digit character for a value below ten.
pub open spec fn digit_char(d: int) -> char {
    ((48 + d) as u8) as char
}

/// Decimal rendering of a non-negative number.
pub open spec fn spec_u64_string(n: int) -> Seq<char>
    decreases n,
{
    if n < 10 {
        seq![digit_char(n)]
    } else {
        spec_u64_string(n / 10).push(digit_char(n % 10))
    }
}

fn push_digit(out: &mut String, d: u64)
    requires
        d < 10,
    ensures
        final(out)@ == old(out)@ + seq![digit_char(d as int)],
{
    let c = (48 + d as u8) as char;
    crate::strutil::push_char(out, c);
}

/// Appends the decimal rendering of `n` to `out`.
pub fn push_u64(out: &mut String, n: u64)
    ensures
        final(out)@ == old(out)@ + spec_u64_string(n as int),
    decreases n,
{
    if n < 10 {
        push_digit(out, n);
    } else {
        push_u64(out, n / 10);
        push_digit(out, n % 10);
    }
}

/// Two-decimal rendering of a value given in hundredths.
pub open spec fn spec_two_decimals(h: int) -> Seq<char> {
    spec_u64_string(h / 100) + seq!['.'] + seq![digit_char((h / 10) % 10), digit_char(h % 10)]
}

/// Appends `h` hundredths as "I.FF" to `out`.
pub fn push_two_decimals(out: &mut String, h: u64)
    ensures
        final(out)@ == old(out)@ + spec_two_decimals(h as int),
{
    push_u64(out, h / 100);
    crate::strutil::push_char(out, '.');
    push_digit(out, (h / 10) % 10);
    push_digit(out, h % 10);
}

/// The two-decimal GiB text that the reports print for a size string.
pub open spec fn spec_size_text(s: Seq<char>) -> Seq<char> {
    spec_two_decimals(spec_gib_hundredths(spec_parse_decimal_or_zero(s)))
}

/// Renders a size string as the two-decimal GiB text used in every report.
pub fn size_text(s: &str) -> (r: String)
    ensures
        r@ == spec_size_text(s@),
{
    let mut out = String::new();
    let bytes = parse_decimal_or_zero(s);
    let h = gib_hundredths(bytes);
    push_two_decimals(&mut out, h);
    out
}

/// Size conversion is monotonic: of two digit strings, the one denoting the
/// larger byte count never renders as a smaller two-decimal GiB value.
pub proof fn lemma_size_conversion_monotonic(s1: Seq<char>, s2: Seq<char>)
    requires
        is_decimal_digits(s1),
        is_decimal_digits(s2),
        decimal_value(s1) <= decimal_value(s2),
    ensures
        spec_gib_hundredths(spec_parse_decimal_or_zero(s1)) <= spec_gib_hundredths(
            spec_parse_decimal_or_zero(s2),
        ),
{
    lemma_saturating_is_min(s1);
    lemma_saturating_is_min(s2);
    lemma_decimal_value_nonneg(s1);
    let b1 = spec_parse_decimal_or_zero(s1);
    let b2 = spec_parse_decimal_or_zero(s2);
    assert(b1 <= b2);
    vstd::arithmetic::div_mod::lemma_div_is_ordered(
        b1 * 100 + 536870912,
        b2 * 100 + 536870912,
        1073741824,
    );
}

} // verus!
