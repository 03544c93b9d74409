//! Rendering of numbers as hexadecimal and decimal text.

use vstd::prelude::*;
use vstd::string::*;

verus! {

/// The lower-case hexadecimal digit of value `d`, for `0 <= d < 16`.
pub open spec fn hex_digit(d: int) -> char {
    "0123456789abcdef"@[d]
}

/// The decimal digit of value `d`, for `0 <= d < 10`.
pub open spec fn decimal_digit(d: int) -> char {
    "0123456789"@[d]
}

/// The `width` least significant hexadecimal digits of `value`, most
/// significant first, padded with zeros on the left.
pub open spec fn hex_text(value: nat, width: nat) -> Seq<char>
    decreases width,
{
    if width == 0 {
        Seq::empty()
    } else {
        hex_text(value / 16, (width - 1) as nat).push(hex_digit((value % 16) as int))
    }
}

/// The decimal digits of `value`, most significant first, without padding.
pub open spec fn decimal_text(value: nat) -> Seq<char>
    decreases value,
{
    if value < 10 {
        seq![decimal_digit(value as int)]
    } else {
        decimal_text(value / 10).push(decimal_digit((value % 10) as int))
    }
}

/// Whether `c` is a decimal digit or one of the letters `a` to `f`.
pub open spec fn is_hex_char(c: char) -> bool {
    ('0' <= c <= '9') || ('a' <= c <= 'f')
}

/// Every hexadecimal digit is a character of `[0-9a-f]`.
pub proof fn lemma_hex_digit_is_hex_char(d: int)
    requires
        0 <= d < 16,
    ensures
        is_hex_char(hex_digit(d)),
{
    reveal_strlit("0123456789abcdef");
}

/// Hexadecimal text has exactly the width asked for and holds only
/// characters of `[0-9a-f]`.
pub proof fn lemma_hex_text_shape(value: nat, width: nat)
    ensures
        hex_text(value, width).len() == width,
        forall|i: int| 0 <= i < width ==> is_hex_char(#[trigger] hex_text(value, width)[i]),
    decreases width,
{
    if width > 0 {
        lemma_hex_text_shape(value / 16, (width - 1) as nat);
        lemma_hex_digit_is_hex_char((value % 16) as int);
    }
}

/// Appends the digit of `d` to `out`.
fn push_hex_digit(out: &mut String, d: usize)
    requires
        d < 16,
    ensures
        final(out)@ == old(out)@.push(hex_digit(d as int)),
{
    let digits = "0123456789abcdef";
    proof {
        reveal_strlit("0123456789abcdef");
    }
    let digit = digits.substring_ascii(d, d + 1);
    out.append(digit);
    assert(digits@.subrange(d as int, d + 1) =~= seq![hex_digit(d as int)]);
    assert(old(out)@ + seq![hex_digit(d as int)] =~= old(out)@.push(hex_digit(d as int)));
}

/// Appends `value` to `out` as `width` hexadecimal digits.
pub fn push_hex(out: &mut String, value: usize, width: usize)
    ensures
        final(out)@ == old(out)@ + hex_text(value as nat, width as nat),
    decreases width,
{
    if width > 0 {
        push_hex(out, value / 16, width - 1);
        push_hex_digit(out, value % 16);
        assert(old(out)@ + hex_text(value as nat, width as nat) =~= (old(out)@ + hex_text(
            (value / 16) as nat,
            (width - 1) as nat,
        )).push(hex_digit((value % 16) as int)));
    } else {
        assert(old(out)@ + hex_text(value as nat, 0) =~= old(out)@);
    }
}

/// Appends the digit of `d` to `out`.
fn push_decimal_digit(out: &mut String, d: usize)
    requires
        d < 10,
    ensures
        final(out)@ == old(out)@.push(decimal_digit(d as int)),
{
    let digits = "0123456789";
    proof {
        reveal_strlit("0123456789");
    }
    let digit = digits.substring_ascii(d, d + 1);
    out.append(digit);
    assert(digits@.subrange(d as int, d + 1) =~= seq![decimal_digit(d as int)]);
    assert(old(out)@ + seq![decimal_digit(d as int)] =~= old(out)@.push(decimal_digit(d as int)));
}

/// Appends `value` to `out` in decimal.
pub fn push_decimal(out: &mut String, value: usize)
    ensures
        final(out)@ == old(out)@ + decimal_text(value as nat),
    decreases value,
{
    if value >= 10 {
        push_decimal(out, value / 10);
    }
    push_decimal_digit(out, value % 10);
    if value >= 10 {
        assert(old(out)@ + decimal_text(value as nat) =~= (old(out)@ + decimal_text(
            (value / 10) as nat,
        )).push(decimal_digit((value % 10) as int)));
    } else {
        assert(old(out)@ + decimal_text(value as nat) =~= old(out)@.push(
            decimal_digit(value as int),
        ));
    }
}

} // verus!
