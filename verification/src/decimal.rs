//! Decimal numbers as text: the digits of a natural number, zero padding,
//! and what a text of an optional sign followed by digits stands for.
use vstd::prelude::*;

verus! {

/// The ASCII character of the decimal digit `d` (`0 <= d < 10`).
pub open spec fn digit_char(d: int) -> char {
    (d + 48) as char
}

pub open spec fn is_ascii_digit(c: char) -> bool {
    48 <= c as int <= 57
}

pub open spec fn all_ascii_digits(s: Seq<char>) -> bool {
    forall|i: int| 0 <= i < s.len() ==> is_ascii_digit(#[trigger] s[i])
}

/// Decimal digits of `n`, most significant first, without leading zeros.
pub open spec fn decimal_digits(n: nat) -> Seq<char>
    decreases n,
{
    if n < 10 {
        seq![digit_char(n as int)]
    } else {
        decimal_digits(n / 10).push(digit_char((n % 10) as int))
    }
}

/// `s` with zeros put in front until it is at least `width` long.
pub open spec fn zero_padded(s: Seq<char>, width: nat) -> Seq<char> {
    if s.len() < width {
        Seq::new((width - s.len()) as nat, |i: int| '0') + s
    } else {
        s
    }
}

/// The number that a text of decimal digits stands for.
pub open spec fn digits_value(s: Seq<char>) -> int
    decreases s.len(),
{
    if s.len() == 0 {
        0
    } else {
        digits_value(s.drop_last()) * 10 + (s.last() as int - 48)
    }
}

/// The `i64` that a text stands for: an optional `+` or `-` followed by at
/// least one ASCII digit and nothing else, with a value that fits in `i64`.
pub open spec fn i64_text_value(s: Seq<char>) -> Option<int> {
    let signed = s.len() > 0 && (s[0] == '-' || s[0] == '+');
    let digits = if signed {
        s.drop_first()
    } else {
        s
    };
    let magnitude = digits_value(digits);
    let value = if s.len() > 0 && s[0] == '-' {
        -magnitude
    } else {
        magnitude
    };
    if digits.len() > 0 && all_ascii_digits(digits) && i64::MIN <= value <= i64::MAX {
        Some(value)
    } else {
        None
    }
}

/// How an integer is written in decimal, as `i64`'s `Display` writes it: a
/// `-` for a negative number, then the digits without leading zeros.
pub open spec fn i64_text(v: int) -> Seq<char> {
    if v < 0 {
        seq!['-'] + decimal_digits((-v) as nat)
    } else {
        decimal_digits(v as nat)
    }
}

/// Calls `str::parse::<i64>`.
///
/// Trusted: as `i64::from_str` is documented, the text is read as an
/// optional sign followed by ASCII digits only, and it fails on any other
/// character, on a text with no digit, and on a value that does not fit.
#[verifier::external_body]
pub(crate) fn parse_i64(s: &str) -> (r: Option<i64>)
    ensures
        r is Some <==> i64_text_value(s@) is Some,
        r matches Some(v) ==> i64_text_value(s@) == Some(v as int),
{
    s.parse::<i64>().ok()
}

// ---------------------------------------------------------------------------
// Lemmas.
// ---------------------------------------------------------------------------
pub proof fn lemma_digit_char_injective(a: int, b: int)
    requires
        0 <= a < 10,
        0 <= b < 10,
        digit_char(a) == digit_char(b),
    ensures
        a == b,
{
    assert(digit_char(a) as int == a + 48);
    assert(digit_char(b) as int == b + 48);
}

/// The digits of `n` are ASCII digits and stand for `n`.
pub proof fn lemma_decimal_digits_value(n: nat)
    ensures
        all_ascii_digits(decimal_digits(n)),
        digits_value(decimal_digits(n)) == n,
        decimal_digits(n).len() >= 1,
    decreases n,
{
    let s = decimal_digits(n);
    if n < 10 {
        assert(digit_char(n as int) as int == n + 48);
        assert(s.drop_last() =~= Seq::<char>::empty());
        assert(s.last() == digit_char(n as int));
        assert(digits_value(s) == digits_value(s.drop_last()) * 10 + (s.last() as int - 48));
        assert(is_ascii_digit(s[0]));
    } else {
        lemma_decimal_digits_value(n / 10);
        let c = digit_char((n % 10) as int);
        assert(c as int == n % 10 + 48);
        assert(s.drop_last() =~= decimal_digits(n / 10));
        assert(s.last() == c);
        assert(n == (n / 10) * 10 + n % 10);
        assert(digits_value(s) == digits_value(s.drop_last()) * 10 + (s.last() as int - 48));
        assert forall|i: int| 0 <= i < s.len() implies is_ascii_digit(#[trigger] s[i]) by {
            if i < s.len() - 1 {
                assert(s[i] == decimal_digits(n / 10)[i]);
            }
        }
    }
}

proof fn lemma_leading_zero_value(s: Seq<char>)
    ensures
        digits_value(seq!['0'] + s) == digits_value(s),
    decreases s.len(),
{
    let t = seq!['0'] + s;
    if s.len() == 0 {
        assert(t.drop_last() =~= Seq::<char>::empty());
        assert('0' as int == 48);
        assert(t.last() == '0');
        assert(digits_value(t) == digits_value(t.drop_last()) * 10 + (t.last() as int - 48));
    } else {
        assert(t.drop_last() =~= seq!['0'] + s.drop_last());
        assert(t.last() == s.last());
        lemma_leading_zero_value(s.drop_last());
        assert(digits_value(t) == digits_value(t.drop_last()) * 10 + (t.last() as int - 48));
    }
}

proof fn lemma_zeros_value(k: nat, s: Seq<char>)
    ensures
        digits_value(Seq::new(k, |i: int| '0') + s) == digits_value(s),
        all_ascii_digits(s) ==> all_ascii_digits(Seq::new(k, |i: int| '0') + s),
    decreases k,
{
    let t = Seq::new(k, |i: int| '0') + s;
    if k == 0 {
        assert(t =~= s);
    } else {
        let u = Seq::new((k - 1) as nat, |i: int| '0') + s;
        lemma_zeros_value((k - 1) as nat, s);
        assert(t =~= seq!['0'] + u);
        lemma_leading_zero_value(u);
        assert('0' as int == 48);
        if all_ascii_digits(s) {
            assert forall|i: int| 0 <= i < t.len() implies is_ascii_digit(#[trigger] t[i]) by {
                if i > 0 {
                    assert(t[i] == u[i - 1]);
                }
            }
        }
    }
}

/// Zero padding keeps the value and the digits.
pub proof fn lemma_zero_padded_value(s: Seq<char>, width: nat)
    ensures
        digits_value(zero_padded(s, width)) == digits_value(s),
        all_ascii_digits(s) ==> all_ascii_digits(zero_padded(s, width)),
        zero_padded(s, width).len() >= s.len(),
        zero_padded(s, width).len() >= width,
{
    if s.len() < width {
        lemma_zeros_value((width - s.len()) as nat, s);
    }
}

/// The zero-padded digits of `n` are ASCII digits, stand for `n`, and are
/// at least `width` long.
pub proof fn lemma_padded_decimal(n: nat, width: nat)
    ensures
        all_ascii_digits(zero_padded(decimal_digits(n), width)),
        digits_value(zero_padded(decimal_digits(n), width)) == n,
        zero_padded(decimal_digits(n), width).len() >= width,
        zero_padded(decimal_digits(n), width).len() >= 1,
{
    lemma_decimal_digits_value(n);
    lemma_zero_padded_value(decimal_digits(n), width);
}

/// Reading back the decimal text of an `i64` gives the number.
pub proof fn lemma_i64_text_value(v: int)
    requires
        i64::MIN <= v <= i64::MAX,
    ensures
        i64_text_value(i64_text(v)) == Some(v),
{
    let t = i64_text(v);
    if v < 0 {
        let digits = decimal_digits((-v) as nat);
        lemma_decimal_digits_value((-v) as nat);
        assert(t.drop_first() =~= digits);
        assert(t[0] == '-');
    } else {
        lemma_decimal_digits_value(v as nat);
        assert(is_ascii_digit(t[0]));
        assert(t[0] != '-' && t[0] != '+');
    }
}

} // verus!
