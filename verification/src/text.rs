//! Numbers and bytes as text, for the views that show memory to a person.
use vstd::prelude::*;

verus! {

/// `String::push` of the standard library: it appends one character to the end
/// of the string and changes nothing else.
pub assume_specification[ String::push ](s: &mut String, ch: char)
    ensures
        final(s)@ == old(s)@.push(ch),
;

/// The character for a hexadecimal digit, with capital or small letters.
pub open spec fn hex_char(digit: int, upper: bool) -> char {
    if digit < 10 {
        ((48 + digit) as u8) as char
    } else if upper {
        ((55 + digit) as u8) as char
    } else {
        ((87 + digit) as u8) as char
    }
}

/// Gives the character for a hexadecimal digit.
pub fn hex_char_of(digit: u8, upper: bool) -> (c: char)
    requires
        digit < 16,
    ensures
        c == hex_char(digit as int, upper),
{
    if digit < 10 {
        (48u8 + digit) as char
    } else if upper {
        (55u8 + digit) as char
    } else {
        (87u8 + digit) as char
    }
}

/// A number without its last `n` hexadecimal digits.
pub open spec fn drop_digits(value: int, n: nat) -> int
    decreases n,
{
    if n == 0 {
        value
    } else {
        drop_digits(value, (n - 1) as nat) / 16
    }
}

/// The last `digits` hexadecimal digits of a number, most significant first.
pub open spec fn hex_text(value: int, digits: nat, upper: bool) -> Seq<char>
    decreases digits,
{
    if digits == 0 {
        Seq::empty()
    } else {
        hex_text(value / 16, (digits - 1) as nat, upper).push(hex_char(value % 16, upper))
    }
}

/// The number of hexadecimal digits that a number takes; zero takes one.
pub open spec fn hex_len(value: int) -> nat
    decreases value,
{
    if value < 16 {
        1
    } else {
        1 + hex_len(value / 16)
    }
}

/// A number in hexadecimal digits, padded with zeros to at least
/// `min_digits` digits.
pub open spec fn hex_text_min(value: int, min_digits: nat, upper: bool) -> Seq<char> {
    if hex_len(value) > min_digits {
        hex_text(value, hex_len(value), upper)
    } else {
        hex_text(value, min_digits, upper)
    }
}

/// The character for a decimal digit.
pub open spec fn dec_char(digit: int) -> char {
    ((48 + digit) as u8) as char
}

/// A number below 1000 in three decimal digits.
pub open spec fn dec_text3(value: int) -> Seq<char> {
    seq![dec_char(value / 100), dec_char((value / 10) % 10), dec_char(value % 10)]
}

/// The character that shows a byte in a text column: the byte's own
/// character from the blank to code 127, a dot for any other byte.
pub open spec fn ascii_char(byte: u8) -> char {
    if 32 <= byte <= 127 {
        byte as char
    } else {
        '.'
    }
}

/// Gives the character that shows a byte in a text column.
pub fn ascii_char_of(byte: u8) -> (c: char)
    ensures
        c == ascii_char(byte),
{
    if 32 <= byte && byte <= 127 {
        byte as char
    } else {
        '.'
    }
}

/// Appends the last `digits` hexadecimal digits of a number to a string.
pub fn push_hex(out: &mut String, value: u64, digits: usize, upper: bool)
    requires
        digits <= 16,
    ensures
        final(out)@ == old(out)@ + hex_text(value as int, digits as nat, upper),
{
    let mut low_first: Vec<u8> = Vec::new();
    let mut rest: u64 = value;
    let mut k: usize = 0;
    while k < digits
        invariant
            k <= digits,
            low_first@.len() == k,
            rest == drop_digits(value as int, k as nat),
            forall|j: int|
                0 <= j < k ==> #[trigger] low_first@[j] == drop_digits(value as int, j as nat) % 16,
        decreases digits - k,
    {
        low_first.push((rest % 16) as u8);
        rest = rest / 16;
        k += 1;
    }
    let mut i: usize = digits;
    assert(out@ =~= old(out)@ + hex_text(drop_digits(value as int, i as nat), 0, upper));
    while i > 0
        invariant
            i <= digits,
            low_first@.len() == digits,
            forall|j: int|
                0 <= j < digits ==> #[trigger] low_first@[j] == drop_digits(value as int, j as nat) % 16,
            out@ == old(out)@ + hex_text(
                drop_digits(value as int, i as nat),
                (digits - i) as nat,
                upper,
            ),
        decreases i,
    {
        i -= 1;
        let digit = low_first[i];
        out.push(hex_char_of(digit, upper));
        proof {
            let shorter = drop_digits(value as int, (i + 1) as nat);
            let longer = drop_digits(value as int, i as nat);
            assert(shorter == longer / 16);
            assert(hex_text(longer, (digits - i) as nat, upper) == hex_text(
                shorter,
                (digits - i - 1) as nat,
                upper,
            ).push(hex_char(longer % 16, upper)));
            assert(out@ =~= old(out)@ + hex_text(longer, (digits - i) as nat, upper));
        }
    }
}

/// Sixteen to the power `n`.
pub open spec fn pow16(n: nat) -> int
    decreases n,
{
    if n == 0 {
        1
    } else {
        16 * pow16((n - 1) as nat)
    }
}

/// A number of `n` hexadecimal digits without its last digit has `n - 1`
/// digits, and no 64-bit number has more than sixteen.
pub proof fn lemma_hex_len_step(value: int, rest: int, n: nat)
    requires
        0 <= value <= u64::MAX,
        rest >= 16,
        n >= 1,
        rest * pow16((n - 1) as nat) <= value,
    ensures
        (rest / 16) * pow16(n) <= value,
        n < 16,
        hex_len(rest) == 1 + hex_len(rest / 16),
{
    let p = pow16((n - 1) as nat);
    lemma_pow16_grows(0, (n - 1) as nat);
    assert(pow16(n) == 16 * p);
    assert((rest / 16) * (16 * p) <= rest * p) by (nonlinear_arith)
        requires
            (rest / 16) * 16 <= rest,
            p >= 0,
    ;
    if n >= 16 {
        lemma_pow16_grows(15, (n - 1) as nat);
        assert(pow16(15) == 0x1000_0000_0000_0000) by {
            reveal_with_fuel(pow16, 17);
        }
        assert(rest * p >= 16 * 0x1000_0000_0000_0000) by (nonlinear_arith)
            requires
                rest >= 16,
                p >= 0x1000_0000_0000_0000,
        ;
    }
}

/// Powers of sixteen are positive and grow with the exponent.
pub proof fn lemma_pow16_grows(a: nat, b: nat)
    requires
        a <= b,
    ensures
        1 <= pow16(a) <= pow16(b),
    decreases b,
{
    if b == 0 {
    } else if a == b {
        lemma_pow16_grows(0, (b - 1) as nat);
    } else {
        lemma_pow16_grows(a, (b - 1) as nat);
    }
}

/// Counts the hexadecimal digits that a number takes.
pub fn hex_len_of(value: u64) -> (n: usize)
    ensures
        n == hex_len(value as int),
        1 <= n <= 16,
{
    let mut n: usize = 1;
    let mut rest: u64 = value;
    while rest >= 16
        invariant
            1 <= n <= 16,
            n + hex_len(rest as int) == 1 + hex_len(value as int),
            rest as int * pow16((n - 1) as nat) <= value,
        decreases rest,
    {
        proof {
            lemma_pow16_grows(0, (n - 1) as nat);
            lemma_hex_len_step(value as int, rest as int, n as nat);
        }
        rest = rest / 16;
        n += 1;
    }
    n
}

/// Appends a number in hexadecimal digits to a string, padded with zeros to
/// at least `min_digits` digits.
pub fn push_hex_min(out: &mut String, value: u64, min_digits: usize, upper: bool)
    requires
        min_digits <= 16,
    ensures
        final(out)@ == old(out)@ + hex_text_min(value as int, min_digits as nat, upper),
{
    let needed = hex_len_of(value);
    if needed > min_digits {
        push_hex(out, value, needed, upper);
    } else {
        push_hex(out, value, min_digits, upper);
    }
}

/// Appends a number below 1000 in three decimal digits to a string.
pub fn push_dec3(out: &mut String, value: u16)
    requires
        value < 1000,
    ensures
        final(out)@ == old(out)@ + dec_text3(value as int),
{
    let hundreds = (value / 100) as u8;
    let tens = ((value / 10) % 10) as u8;
    let ones = (value % 10) as u8;
    out.push((48u8 + hundreds) as char);
    out.push((48u8 + tens) as char);
    out.push((48u8 + ones) as char);
    assert(out@ =~= old(out)@ + dec_text3(value as int));
}

} // verus!
