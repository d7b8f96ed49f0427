//! Numbers as bytes and as text: the little-endian bytes of 64-bit integers
//! and decimal numerals.

use vstd::prelude::*;
use vstd::string::StringExecFns;

verus! {

/// The eight bytes of `value` in little-endian order. A negative value gives
/// the bytes of its 64-bit two's complement.
#[verifier::opaque]
pub open spec fn le_bytes(value: int) -> Seq<u8> {
    seq![
        (value % 0x100) as u8,
        (value / 0x100 % 0x100) as u8,
        (value / 0x1_0000 % 0x100) as u8,
        (value / 0x100_0000 % 0x100) as u8,
        (value / 0x1_0000_0000 % 0x100) as u8,
        (value / 0x100_0000_0000 % 0x100) as u8,
        (value / 0x1_0000_0000_0000 % 0x100) as u8,
        (value / 0x100_0000_0000_0000 % 0x100) as u8,
    ]
}

/// The value that eight little-endian bytes spell, read as an unsigned integer.
pub open spec fn le_value(bytes: Seq<u8>) -> int {
    bytes[0] as int
        + bytes[1] as int * 0x100
        + bytes[2] as int * 0x1_0000
        + bytes[3] as int * 0x100_0000
        + bytes[4] as int * 0x1_0000_0000
        + bytes[5] as int * 0x100_0000_0000
        + bytes[6] as int * 0x1_0000_0000_0000
        + bytes[7] as int * 0x100_0000_0000_0000
}

/// There are eight bytes, whatever the value.
pub proof fn lemma_le_bytes_len(value: int)
    ensures
        le_bytes(value).len() == 8,
{
    reveal(le_bytes);
}

/// Adding a multiple of `256 * place` to a value leaves its byte at `place` as it was.
proof fn lemma_byte_ignores_high_multiple(value: int, place: int, k: int)
    requires
        place > 0,
    ensures
        (value + (256 * k) * place) / place % 256 == value / place % 256,
{
    vstd::arithmetic::div_mod::lemma_hoist_over_denominator(value, 256 * k, place as nat);
    vstd::arithmetic::div_mod::lemma_mod_multiples_vanish(k, value / place, 256);
}

/// A value and the value `2^64` above it have the same bytes: so a negative
/// value has the bytes of its 64-bit two's complement.
pub proof fn lemma_le_bytes_of_twos_complement(value: int)
    ensures
        le_bytes(value + 0x1_0000_0000_0000_0000) == le_bytes(value),
{
    reveal(le_bytes);
    lemma_byte_ignores_high_multiple(value, 0x1, 0x100_0000_0000_0000);
    lemma_byte_ignores_high_multiple(value, 0x100, 0x1_0000_0000_0000);
    lemma_byte_ignores_high_multiple(value, 0x1_0000, 0x100_0000_0000);
    lemma_byte_ignores_high_multiple(value, 0x100_0000, 0x1_0000_0000);
    lemma_byte_ignores_high_multiple(value, 0x1_0000_0000, 0x100_0000);
    lemma_byte_ignores_high_multiple(value, 0x100_0000_0000, 0x1_0000);
    lemma_byte_ignores_high_multiple(value, 0x1_0000_0000_0000, 0x100);
    lemma_byte_ignores_high_multiple(value, 0x100_0000_0000_0000, 0x1);
    assert(le_bytes(value + 0x1_0000_0000_0000_0000) =~= le_bytes(value));
}

/// Reading back the bytes of an unsigned 64-bit value gives the value.
pub proof fn lemma_le_value_of_le_bytes(value: int)
    requires
        0 <= value < 0x1_0000_0000_0000_0000,
    ensures
        le_value(le_bytes(value)) == value,
{
    reveal(le_bytes);
    vstd::arithmetic::div_mod::lemma_div_denominator(value, 0x100, 0x100);
    vstd::arithmetic::div_mod::lemma_div_denominator(value, 0x1_0000, 0x100);
    vstd::arithmetic::div_mod::lemma_div_denominator(value, 0x100_0000, 0x100);
    vstd::arithmetic::div_mod::lemma_div_denominator(value, 0x1_0000_0000, 0x100);
    vstd::arithmetic::div_mod::lemma_div_denominator(value, 0x100_0000_0000, 0x100);
    vstd::arithmetic::div_mod::lemma_div_denominator(value, 0x1_0000_0000_0000, 0x100);
}

/// Two unsigned 64-bit values with the same bytes are the same value.
pub proof fn lemma_le_bytes_injective_unsigned(a: u64, b: u64)
    requires
        le_bytes(a as int) == le_bytes(b as int),
    ensures
        a == b,
{
    lemma_le_value_of_le_bytes(a as int);
    lemma_le_value_of_le_bytes(b as int);
}

/// Two signed 64-bit values with the same bytes are the same value.
pub proof fn lemma_le_bytes_injective_signed(a: i64, b: i64)
    requires
        le_bytes(a as int) == le_bytes(b as int),
    ensures
        a == b,
{
    let wide_a = if a >= 0 { a as int } else { a + 0x1_0000_0000_0000_0000 };
    let wide_b = if b >= 0 { b as int } else { b + 0x1_0000_0000_0000_0000 };
    lemma_le_bytes_of_twos_complement(a as int);
    lemma_le_bytes_of_twos_complement(b as int);
    lemma_le_value_of_le_bytes(wide_a);
    lemma_le_value_of_le_bytes(wide_b);
}

/// Appends the eight little-endian bytes of `value` to `out`.
pub fn push_le_bytes(out: &mut Vec<u8>, value: u64)
    ensures
        final(out)@ == old(out)@ + le_bytes(value as int),
{
    out.push((value % 0x100) as u8);
    out.push((value / 0x100 % 0x100) as u8);
    out.push((value / 0x1_0000 % 0x100) as u8);
    out.push((value / 0x100_0000 % 0x100) as u8);
    out.push((value / 0x1_0000_0000 % 0x100) as u8);
    out.push((value / 0x100_0000_0000 % 0x100) as u8);
    out.push((value / 0x1_0000_0000_0000 % 0x100) as u8);
    out.push((value / 0x100_0000_0000_0000 % 0x100) as u8);
    proof {
        reveal(le_bytes);
        assert(out@ =~= old(out)@ + le_bytes(value as int));
    }
}

/// The 64-bit two's complement of `value`, as an unsigned integer.
pub fn twos_complement(value: i64) -> (bits: u64)
    ensures
        value >= 0 ==> bits == value,
        value < 0 ==> bits == value + 0x1_0000_0000_0000_0000,
        le_bytes(bits as int) == le_bytes(value as int),
{
    if value >= 0 {
        value as u64
    } else {
        proof {
            lemma_le_bytes_of_twos_complement(value as int);
        }
        (value as i128 + 0x1_0000_0000_0000_0000i128) as u64
    }
}

/// The character of a decimal digit.
pub open spec fn digit_char(digit: int) -> char
    recommends
        0 <= digit < 10,
{
    if digit == 0 {
        '0'
    } else if digit == 1 {
        '1'
    } else if digit == 2 {
        '2'
    } else if digit == 3 {
        '3'
    } else if digit == 4 {
        '4'
    } else if digit == 5 {
        '5'
    } else if digit == 6 {
        '6'
    } else if digit == 7 {
        '7'
    } else if digit == 8 {
        '8'
    } else {
        '9'
    }
}

/// The decimal numeral of `value`, without leading zeros.
pub open spec fn decimal_text(value: nat) -> Seq<char>
    decreases value,
{
    if value < 10 {
        seq![digit_char(value as int)]
    } else {
        decimal_text(value / 10).push(digit_char(value as int % 10))
    }
}

/// The numeral of one decimal digit.
fn digit_str(digit: u8) -> (text: &'static str)
    requires
        digit < 10,
    ensures
        text@ == seq![digit_char(digit as int)],
{
    proof {
        reveal_strlit("0");
        reveal_strlit("1");
        reveal_strlit("2");
        reveal_strlit("3");
        reveal_strlit("4");
        reveal_strlit("5");
        reveal_strlit("6");
        reveal_strlit("7");
        reveal_strlit("8");
        reveal_strlit("9");
    }
    let text = match digit {
        0 => "0",
        1 => "1",
        2 => "2",
        3 => "3",
        4 => "4",
        5 => "5",
        6 => "6",
        7 => "7",
        8 => "8",
        _ => "9",
    };
    assert(text@ =~= seq![digit_char(digit as int)]);
    text
}

/// Appends the decimal numeral of `value` to `out`.
pub fn push_decimal(out: &mut String, value: u8)
    ensures
        final(out)@ == old(out)@ + decimal_text(value as nat),
{
    proof {
        reveal_with_fuel(decimal_text, 3);
    }
    if value >= 100 {
        out.append(digit_str(value / 100));
    }
    if value >= 10 {
        out.append(digit_str(value / 10 % 10));
    }
    out.append(digit_str(value % 10));
    assert(out@ =~= old(out)@ + decimal_text(value as nat));
}

} // verus!
