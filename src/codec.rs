//! Decimal text in argument and result buffers.
use vstd::prelude::*;

verus! {

/// The byte of the ASCII digit `0`.
pub const DIGIT_ZERO: u8 = 48;

/// The byte of the ASCII sign `+`.
pub const PLUS_SIGN: u8 = 43;

pub open spec fn is_digit(b: u8) -> bool {
    DIGIT_ZERO <= b && b <= DIGIT_ZERO + 9
}

pub open spec fn all_digits(s: Seq<u8>) -> bool {
    forall|i: int| 0 <= i < s.len() ==> is_digit(#[trigger] s[i])
}

/// The number that a string of decimal digits spells, most significant first.
pub open spec fn digits_value(s: Seq<u8>) -> nat
    decreases s.len(),
{
    if s.len() == 0 {
        0
    } else {
        digits_value(s.drop_last()) * 10 + (s.last() - DIGIT_ZERO) as nat
    }
}

/// The digits of a decimal number: the text without one leading `+`.
pub open spec fn unsigned_digits(s: Seq<u8>) -> Seq<u8> {
    if s.len() > 0 && s[0] == PLUS_SIGN {
        s.drop_first()
    } else {
        s
    }
}

/// Whether `s` is the decimal text of a `u32`: an optional `+`, then at least
/// one digit, with a value that fits.
pub open spec fn is_decimal_u32(s: Seq<u8>) -> bool {
    let d = unsigned_digits(s);
    d.len() > 0 && all_digits(d) && digits_value(d) <= u32::MAX
}

pub open spec fn decimal_u32_value(s: Seq<u8>) -> nat {
    digits_value(unsigned_digits(s))
}

/// The shortest decimal text of `n`.
pub open spec fn decimal_text(n: nat) -> Seq<u8>
    decreases n,
{
    if n < 10 {
        seq![(DIGIT_ZERO + n) as u8]
    } else {
        decimal_text(n / 10).push((DIGIT_ZERO + n % 10) as u8)
    }
}

proof fn lemma_value_grows(s: Seq<u8>, i: int, j: int)
    requires
        0 <= i <= j <= s.len(),
        all_digits(s),
    ensures
        digits_value(s.subrange(0, i)) <= digits_value(s.subrange(0, j)),
    decreases j - i,
{
    if i < j {
        lemma_value_grows(s, i, j - 1);
        assert(s.subrange(0, j).drop_last() =~= s.subrange(0, j - 1));
    }
}

proof fn lemma_decimal_text_digits(n: nat)
    ensures
        decimal_text(n).len() > 0,
        all_digits(decimal_text(n)),
        digits_value(decimal_text(n)) == n,
    decreases n,
{
    if n < 10 {
        let t = decimal_text(n);
        assert(t.drop_last() =~= Seq::<u8>::empty());
        assert(t.last() == DIGIT_ZERO + n);
        assert(digits_value(t) == digits_value(t.drop_last()) * 10 + (t.last() - DIGIT_ZERO) as nat);
    } else {
        lemma_decimal_text_digits(n / 10);
        let t = decimal_text(n);
        assert(t.drop_last() =~= decimal_text(n / 10));
        assert(t.last() == DIGIT_ZERO + n % 10);
        assert(n == (n / 10) * 10 + n % 10) by (nonlinear_arith);
        assert(digits_value(t) == digits_value(t.drop_last()) * 10 + (t.last() - DIGIT_ZERO) as nat);
    }
}

/// Decimal text written by `format_u32` reads back, by `parse_u32`, as the
/// number it was written from.
pub proof fn law_decimal_round_trip(n: u32)
    ensures
        is_decimal_u32(decimal_text(n as nat)),
        decimal_u32_value(decimal_text(n as nat)) == n,
{
    lemma_decimal_text_digits(n as nat);
    let t = decimal_text(n as nat);
    assert(is_digit(t[0]));
    assert(unsigned_digits(t) == t);
}

/// Reads a `u32` from its decimal text: an optional `+` and one or more
/// digits, as `u32::from_str` reads it.
pub fn parse_u32(text: &[u8]) -> (r: Option<u32>)
    ensures
        r is Some <==> is_decimal_u32(text@),
        r matches Some(v) ==> v as nat == decimal_u32_value(text@),
{
    let start: usize = if text.len() > 0 && text[0] == PLUS_SIGN {
        1
    } else {
        0
    };
    let ghost d = unsigned_digits(text@);
    assert(d =~= text@.subrange(start as int, text@.len() as int));
    if start == text.len() {
        return None;
    }
    let mut value: u64 = 0;
    let mut too_large = false;
    let mut i: usize = start;
    while i < text.len()
        invariant
            start <= i <= text.len(),
            d == text@.subrange(start as int, text@.len() as int),
            d == unsigned_digits(text@),
            all_digits(d.subrange(0, i - start)),
            !too_large ==> value == digits_value(d.subrange(0, i - start)),
            !too_large ==> value <= u32::MAX,
            too_large ==> digits_value(d.subrange(0, i - start)) > u32::MAX,
        decreases text.len() - i,
    {
        let b = text[i];
        if b < DIGIT_ZERO || b > DIGIT_ZERO + 9 {
            assert(d[i - start] == b);
            assert(!is_digit(d[i - start]));
            return None;
        }
        let ghost k = i - start;
        assert(d.subrange(0, k + 1).drop_last() =~= d.subrange(0, k));
        assert(d.subrange(0, k + 1) =~= d.subrange(0, k).push(b));
        if !too_large {
            value = value * 10 + (b - DIGIT_ZERO) as u64;
            if value > u32::MAX as u64 {
                too_large = true;
            }
        }
        i = i + 1;
    }
    assert(d.subrange(0, d.len() as int) =~= d);
    if too_large {
        None
    } else {
        Some(value as u32)
    }
}

/// Appends the decimal text of `n` to `out`.
fn push_decimal(n: u32, out: &mut Vec<u8>)
    ensures
        final(out)@ == old(out)@ + decimal_text(n as nat),
    decreases n,
{
    if n >= 10 {
        push_decimal(n / 10, out);
    }
    out.push(DIGIT_ZERO + (n % 10) as u8);
    proof {
        if n >= 10 {
            assert(old(out)@ + decimal_text(n as nat) =~= old(out)@ + decimal_text((n / 10) as nat)
                + seq![(DIGIT_ZERO + n % 10) as u8]);
        } else {
            assert(decimal_text(n as nat) =~= seq![(DIGIT_ZERO + n) as u8]);
        }
    }
}

/// The decimal text of `n`, as `u32::to_string` writes it.
pub fn format_u32(n: u32) -> (r: Vec<u8>)
    ensures
        r@ == decimal_text(n as nat),
{
    let mut out: Vec<u8> = Vec::new();
    push_decimal(n, &mut out);
    assert(out@ =~= decimal_text(n as nat));
    out
}

} // verus!
