//! Numbers as text: decimal and fixed-width hexadecimal.

use vstd::prelude::*;

verus! {

/// `String::push` appends one character to the end of the string.
pub assume_specification[ String::push ](text: &mut String, ch: char)
    ensures
        final(text)@ == old(text)@.push(ch),
;

/// The character of a digit below 16: `0` to `9`, then `a` to `f`.
pub open spec fn digit_char(d: int) -> char {
    if d < 10 {
        (d + 48) as u8 as char
    } else {
        (d + 87) as u8 as char
    }
}

/// The decimal digits of a natural number, without leading zeros.
pub open spec fn decimal_digits(n: nat) -> Seq<char>
    decreases n,
{
    if n < 10 {
        seq![digit_char(n as int)]
    } else {
        decimal_digits(n / 10).push(digit_char((n % 10) as int))
    }
}

/// An integer in decimal, with a minus sign in front if it is negative.
pub open spec fn decimal(i: int) -> Seq<char> {
    if i < 0 {
        seq!['-'] + decimal_digits((-i) as nat)
    } else {
        decimal_digits(i as nat)
    }
}

/// A 32-bit number as eight lowercase hexadecimal digits, the most
/// significant first.
pub open spec fn hex8(n: u32) -> Seq<char> {
    Seq::new(8, |i: int| digit_char((n as int / pow16(7 - i)) % 16))
}

/// Sixteen to the power `e`.
pub open spec fn pow16(e: int) -> int
    decreases e,
{
    if e <= 0 {
        1
    } else {
        16 * pow16(e - 1)
    }
}

/// The character of a digit below 16.
fn digit(d: u8) -> (ch: char)
    requires
        d < 16,
    ensures
        ch == digit_char(d as int),
{
    if d < 10 {
        (d + 48) as char
    } else {
        (d + 87) as char
    }
}

/// Appends the decimal digits of `n` to `text`.
fn push_decimal(text: &mut String, n: u64)
    ensures
        final(text)@ == old(text)@ + decimal_digits(n as nat),
    decreases n,
{
    if n >= 10 {
        push_decimal(text, n / 10);
    }
    text.push(digit((n % 10) as u8));
}

/// The text of `n` in decimal.
pub fn decimal_u64(n: u64) -> (text: String)
    ensures
        text@ == decimal(n as int),
{
    let mut text = String::new();
    push_decimal(&mut text, n);
    text
}

/// The text of `n` in decimal, with a minus sign if it is negative.
pub fn decimal_i32(n: i32) -> (text: String)
    ensures
        text@ == decimal(n as int),
{
    let mut text = String::new();
    if n < 0 {
        text.push('-');
        push_decimal(&mut text, (-(n as i64)) as u64);
    } else {
        push_decimal(&mut text, n as u64);
    }
    text
}

/// The text of `n` as eight lowercase hexadecimal digits.
pub fn hex8_u32(n: u32) -> (text: String)
    ensures
        text@ == hex8(n),
{
    let mut text = String::new();
    let mut i: u32 = 0;
    let mut rest: u32 = n;
    let mut scale: u32 = 0x1000_0000;
    proof {
        reveal_with_fuel(pow16, 9);
        assert(pow16(7) == 0x1000_0000);
        assert(16 * 0x1000_0000 == 0x1_0000_0000);
    }
    while i < 8
        invariant
            i <= 8,
            text@.len() == i,
            forall|j: int| 0 <= j < i ==> text@[j] == hex8(n)[j],
            scale > 0,
            i < 8 ==> scale as int == pow16(7 - i),
            i < 8 ==> rest as int == n as int % (16 * scale as int),
        decreases 8 - i,
    {
        let d = rest / scale;
        proof {
            lemma_hex_digit(n as int, scale as int, rest as int);
        }
        text.push(digit(d as u8));
        rest = rest % scale;
        i += 1;
        if i < 8 {
            proof {
                assert(pow16(7 - (i - 1)) == 16 * pow16(7 - i));
            }
            scale = scale / 16;
        }
    }
    text
}

/// With `rest` the remainder of `n` by sixteen times `scale`, the quotient
/// of `rest` by `scale` is the hexadecimal digit of `n` at `scale`, and the
/// remainder of `rest` by `scale` is that of `n`.
proof fn lemma_hex_digit(n: int, scale: int, rest: int)
    requires
        0 <= n,
        0 < scale,
        rest == n % (16 * scale),
    ensures
        0 <= rest / scale < 16,
        rest / scale == (n / scale) % 16,
        rest % scale == n % scale,
{
    let q = (n / scale) % 16;
    let r = n % scale;
    vstd::arithmetic::div_mod::lemma_mod_breakdown(n, scale, 16);
    assert(scale * 16 == 16 * scale);
    assert(scale * q == q * scale) by (nonlinear_arith);
    vstd::arithmetic::div_mod::lemma_mod_bound(n / scale, 16);
    vstd::arithmetic::div_mod::lemma_mod_bound(n, scale);
    vstd::arithmetic::div_mod::lemma_fundamental_div_mod_converse(rest, scale, q, r);
}

/// The number that a text of decimal digits stands for.
pub open spec fn digits_value(digits: Seq<char>) -> nat
    decreases digits.len(),
{
    if digits.len() == 0 {
        0
    } else {
        (digits_value(digits.drop_last()) * 10 + (digits.last() as int - 48)) as nat
    }
}

/// The decimal digits of a number are digits, at least one of them, and
/// stand for that number.
pub proof fn decimal_digits_stand_for(n: nat)
    ensures
        decimal_digits(n).len() >= 1,
        forall|i: int|
            0 <= i < decimal_digits(n).len() ==> '0' <= #[trigger] decimal_digits(n)[i] <= '9',
        digits_value(decimal_digits(n)) == n,
    decreases n,
{
    if n < 10 {
        let one = decimal_digits(n);
        assert(one.drop_last() == Seq::<char>::empty());
        reveal_with_fuel(digits_value, 2);
    } else {
        decimal_digits_stand_for(n / 10);
        let all = decimal_digits(n);
        assert(all.drop_last() == decimal_digits(n / 10));
        assert(all.last() == digit_char((n % 10) as int));
    }
}

/// Two integers with the same decimal text are the same integer.
pub proof fn decimal_is_injective(a: int, b: int)
    requires
        decimal(a) == decimal(b),
    ensures
        a == b,
{
    let da = decimal_digits((if a < 0 { -a } else { a }) as nat);
    let db = decimal_digits((if b < 0 { -b } else { b }) as nat);
    decimal_digits_stand_for((if a < 0 { -a } else { a }) as nat);
    decimal_digits_stand_for((if b < 0 { -b } else { b }) as nat);
    assert(da[0] != '-');
    assert(db[0] != '-');
    if a < 0 {
        assert(decimal(a)[0] == '-');
        if b >= 0 {
            assert(decimal(b)[0] == db[0]);
        } else {
            assert(decimal(a).subrange(1, decimal(a).len() as int) == da);
            assert(decimal(b).subrange(1, decimal(b).len() as int) == db);
        }
    } else {
        assert(decimal(a)[0] == da[0]);
        if b < 0 {
            assert(decimal(b)[0] == '-');
        }
    }
}

} // verus!
