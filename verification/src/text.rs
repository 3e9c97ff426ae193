//! Numbers as text: zero-padded hexadecimal and signed decimal.

use vstd::arithmetic::power::{lemma_pow0, pow};
use vstd::prelude::*;
use vstd::string::*;

verus! {

/// The sixteen hexadecimal digits, capitals for ten to fifteen.
pub open spec fn upper_digits() -> Seq<char> {
    "0123456789ABCDEF"@
}

/// The sixteen hexadecimal digits, small letters for ten to fifteen.
pub open spec fn lower_digits() -> Seq<char> {
    "0123456789abcdef"@
}

/// The character for the digit `d`, which is below sixteen.
pub open spec fn digit_char(d: nat, upper: bool) -> char
    recommends
        d < 16,
{
    if upper {
        upper_digits()[d as int]
    } else {
        lower_digits()[d as int]
    }
}

/// `n` in base sixteen, most significant digit first, padded with zeros on
/// the left to at least `width` digits and never shorter than one digit.
pub open spec fn hex_text(n: nat, width: nat, upper: bool) -> Seq<char>
    decreases n, width,
{
    if n < 16 && width <= 1 {
        seq![digit_char(n, upper)]
    } else {
        hex_text(
            n / 16,
            if width > 0 {
                (width - 1) as nat
            } else {
                0
            },
            upper,
        ).push(digit_char(n % 16, upper))
    }
}

/// `n` in base ten, most significant digit first, without padding.
pub open spec fn decimal_text(n: nat) -> Seq<char>
    decreases n,
{
    if n < 10 {
        seq![digit_char(n, true)]
    } else {
        decimal_text(n / 10).push(digit_char(n % 10, true))
    }
}

/// `i` in base ten, with a leading minus sign where it is negative.
pub open spec fn signed_decimal_text(i: int) -> Seq<char> {
    if i < 0 {
        seq!['-'] + decimal_text((-i) as nat)
    } else {
        decimal_text(i as nat)
    }
}

/// A number below sixteen to the power of `width` has exactly `width`
/// digits when it is padded to `width`.
pub proof fn lemma_hex_text_len(n: nat, width: nat, upper: bool)
    requires
        width >= 1,
        n < pow(16, width),
    ensures
        hex_text(n, width, upper).len() == width,
    decreases width,
{
    reveal(pow);
    lemma_pow0(16);
    if width > 1 {
        lemma_hex_text_len(n / 16, (width - 1) as nat, upper);
    }
}

/// Appends the character of one digit.
fn push_digit(out: &mut String, d: u64, upper: bool)
    requires
        d < 16,
    ensures
        final(out)@ == old(out)@.push(digit_char(d as nat, upper)),
{
    proof {
        reveal_strlit("0123456789ABCDEF");
        reveal_strlit("0123456789abcdef");
    }
    let digits: &'static str = if upper {
        "0123456789ABCDEF"
    } else {
        "0123456789abcdef"
    };
    let at: usize = d as usize;
    let one: &str = digits.substring_char(at, at + 1);
    out.append(one);
    assert(out@ =~= old(out)@.push(digit_char(d as nat, upper)));
}

/// Appends `n` in base sixteen, padded with zeros to at least `width` digits.
pub fn push_hex(out: &mut String, n: u64, width: u32, upper: bool)
    ensures
        final(out)@ == old(out)@ + hex_text(n as nat, width as nat, upper),
    decreases n, width,
{
    if n >= 16 || width > 1 {
        let rest: u32 = if width > 0 {
            width - 1
        } else {
            0
        };
        push_hex(out, n / 16, rest, upper);
    }
    push_digit(out, n % 16, upper);
    assert(out@ =~= old(out)@ + hex_text(n as nat, width as nat, upper));
}

/// Appends `n` in base ten.
pub fn push_decimal(out: &mut String, n: u64)
    ensures
        final(out)@ == old(out)@ + decimal_text(n as nat),
    decreases n,
{
    if n >= 10 {
        push_decimal(out, n / 10);
    }
    push_digit(out, n % 10, true);
    assert(out@ =~= old(out)@ + decimal_text(n as nat));
}

/// Appends `i` in base ten, with a minus sign where it is negative.
pub fn push_signed_decimal(out: &mut String, i: i32)
    ensures
        final(out)@ == old(out)@ + signed_decimal_text(i as int),
{
    if i < 0 {
        proof {
            reveal_strlit("-");
        }
        out.append("-");
        let magnitude: u64 = (-(i as i64)) as u64;
        push_decimal(out, magnitude);
        assert(out@ =~= old(out)@ + signed_decimal_text(i as int));
    } else {
        push_decimal(out, i as u64);
    }
}

} // verus!
