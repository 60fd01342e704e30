//! Text building blocks: decimal numerals and UTF-16 encoding.
use vstd::prelude::*;

verus! {

/// `String::push`: appends one character.
pub assume_specification[ String::push ](s: &mut String, ch: char)
    ensures
        final(s)@ == old(s)@.push(ch),
;

/// The character of a decimal digit.
pub open spec fn digit_char(d: int) -> char {
    (48 + d) as char
}

/// Decimal digits of a natural number, most significant first, no leading zero.
pub open spec fn decimal_digits(n: nat) -> Seq<char>
    decreases n,
{
    if n < 10 {
        seq![digit_char(n as int)]
    } else {
        decimal_digits(n / 10).push(digit_char((n % 10) as int))
    }
}

/// Decimal numeral of an integer, with a leading `-` when negative.
pub open spec fn decimal(n: int) -> Seq<char> {
    if n < 0 {
        seq!['-'] + decimal_digits((-n) as nat)
    } else {
        decimal_digits(n as nat)
    }
}

fn push_decimal_digits(s: &mut String, n: u32)
    ensures
        final(s)@ == old(s)@ + decimal_digits(n as nat),
    decreases n,
{
    if n >= 10 {
        push_decimal_digits(s, n / 10);
    }
    let d: u8 = (n % 10) as u8;
    s.push((48u8 + d) as char);
    proof {
        assert(((48u8 + d) as char) == digit_char((n % 10) as int));
        assert(s@ =~= old(s)@ + decimal_digits(n as nat));
    }
}

/// The decimal numeral of `n`, as `i32`'s `Display` writes it.
pub fn decimal_text(n: i32) -> (s: String)
    ensures
        s@ == decimal(n as int),
{
    let mut s = String::new();
    if n < 0 {
        s.push('-');
        let magnitude: u32 = if n == i32::MIN {
            2147483648u32
        } else {
            (-n) as u32
        };
        push_decimal_digits(&mut s, magnitude);
        assert(s@ =~= decimal(n as int));
    } else {
        push_decimal_digits(&mut s, n as u32);
        assert(s@ =~= decimal(n as int));
    }
    s
}

/// The UTF-16 code units of one character: itself below U+10000, else a
/// surrogate pair.
pub open spec fn utf16_of_char(c: char) -> Seq<u16> {
    let v = c as int;
    if v < 0x10000 {
        seq![v as u16]
    } else {
        seq![(0xD800 + (v - 0x10000) / 0x400) as u16, (0xDC00 + (v - 0x10000) % 0x400) as u16]
    }
}

/// The UTF-16 encoding of a string.
pub open spec fn utf16(s: Seq<char>) -> Seq<u16>
    decreases s.len(),
{
    if s.len() == 0 {
        Seq::empty()
    } else {
        utf16(s.drop_last()) + utf16_of_char(s.last())
    }
}

/// The UTF-16 code units of `s`, as `str::encode_utf16` yields them.
pub fn utf16_units(s: &str) -> (units: Vec<u16>)
    ensures
        units@ == utf16(s@),
{
    let mut units: Vec<u16> = Vec::new();
    let len = s.unicode_len();
    let mut i: usize = 0;
    while i < len
        invariant
            len == s@.len(),
            i <= len,
            units@ == utf16(s@.take(i as int)),
        decreases len - i,
    {
        let c = s.get_char(i);
        let v = c as u32;
        assert(v as int == c as int);
        if v < 0x10000 {
            units.push(v as u16);
        } else {
            let w = v - 0x10000;
            units.push((0xD800 + w / 0x400) as u16);
            units.push((0xDC00 + w % 0x400) as u16);
        }
        proof {
            assert(s@.take(i + 1).drop_last() =~= s@.take(i as int));
            assert(s@.take(i + 1).last() == c);
        }
        i = i + 1;
        assert(units@ =~= utf16(s@.take(i as int)));
    }
    assert(s@.take(len as int) =~= s@);
    units
}

} // verus!
