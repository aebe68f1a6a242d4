//! Text helpers: decoding the UTF-16 names carried by records, and the
//! hexadecimal rendering used when an entry is formatted.

use vstd::prelude::*;

verus! {

/// Relies on `char::from_u32`: returns the character with the given code
/// point, or `None` when the value is a surrogate code or above the
/// Unicode maximum.
pub assume_specification[ char::from_u32 ](u: u32) -> (r: Option<char>)
    ensures
        r is Some <==> (u < 0xD800 || (0xE000 <= u && u <= 0x10FFFF)),
        r matches Some(c) ==> c as u32 == u,
;

/// Relies on `String`'s `FromIterator<char>` implementation: collecting
/// characters yields the string of exactly those characters in order.
#[verifier::external_body]
pub fn chars_to_string(chars: Vec<char>) -> (r: String)
    ensures
        r@ == chars@,
{
    chars.into_iter().collect()
}

/// A UTF-16 code unit that opens a surrogate pair.
pub open spec fn is_high_surrogate(u: u16) -> bool {
    0xD800 <= u <= 0xDBFF
}

/// A UTF-16 code unit that closes a surrogate pair.
pub open spec fn is_low_surrogate(u: u16) -> bool {
    0xDC00 <= u <= 0xDFFF
}

/// The code point encoded by a surrogate pair.
pub open spec fn surrogate_code_point(hi: u16, lo: u16) -> u32 {
    (0x10000 + (hi - 0xD800) * 0x400 + (lo - 0xDC00)) as u32
}

/// The replacement character substituted for an unpaired surrogate.
pub open spec fn replacement_char() -> char {
    '\u{FFFD}'
}

/// The characters denoted by a sequence of UTF-16 code units, with every
/// unpaired surrogate replaced by the replacement character.
pub open spec fn utf16_lossy(units: Seq<u16>) -> Seq<char>
    decreases units.len(),
{
    if units.len() == 0 {
        Seq::<char>::empty()
    } else if is_high_surrogate(units[0]) {
        if units.len() >= 2 && is_low_surrogate(units[1]) {
            seq![surrogate_code_point(units[0], units[1]) as char] + utf16_lossy(units.skip(2))
        } else {
            seq![replacement_char()] + utf16_lossy(units.skip(1))
        }
    } else if is_low_surrogate(units[0]) {
        seq![replacement_char()] + utf16_lossy(units.skip(1))
    } else {
        seq![units[0] as u32 as char] + utf16_lossy(units.skip(1))
    }
}

/// Decodes UTF-16 code units into characters, substituting the
/// replacement character for unpaired surrogates.
pub fn utf16_lossy_chars(units: &[u16]) -> (r: Vec<char>)
    ensures
        r@ == utf16_lossy(units@),
{
    let n: usize = units.len();
    let mut out: Vec<char> = Vec::new();
    let mut i: usize = 0;
    proof {
        assert(units@.skip(0) =~= units@);
        assert(out@ + utf16_lossy(units@) =~= utf16_lossy(units@));
    }
    while i < n
        invariant
            n == units@.len(),
            i <= n,
            out@ + utf16_lossy(units@.skip(i as int)) == utf16_lossy(units@),
        decreases n - i,
    {
        let u = units[i];
        let ghost rest = units@.skip(i as int);
        assert(rest[0] == units@[i as int]);
        if 0xD800 <= u && u <= 0xDBFF {
            if i + 1 < n && 0xDC00 <= units[i + 1] && units[i + 1] <= 0xDFFF {
                let lo = units[i + 1];
                assert(rest.len() >= 2 && rest[1] == units@[i as int + 1]);
                let code: u32 = 0x10000 + ((u - 0xD800) as u32) * 0x400 + ((lo - 0xDC00) as u32);
                assert(code == surrogate_code_point(u, lo));
                match char::from_u32(code) {
                    Some(c) => {
                        proof {
                            vstd::utf8::char_u32_cast(c, code);
                        }
                        out.push(c);
                    },
                    None => {
                        proof {
                            assert(0xE000 <= code <= 0x10FFFF);
                        }
                        assert(false);
                    },
                }
                proof {
                    assert(rest.skip(2) =~= units@.skip(i as int + 2));
                }
                i = i + 2;
            } else {
                out.push('\u{FFFD}');
                proof {
                    assert(rest.skip(1) =~= units@.skip(i as int + 1));
                }
                i = i + 1;
            }
        } else if 0xDC00 <= u && u <= 0xDFFF {
            out.push('\u{FFFD}');
            proof {
                assert(rest.skip(1) =~= units@.skip(i as int + 1));
            }
            i = i + 1;
        } else {
            let code: u32 = u as u32;
            match char::from_u32(code) {
                Some(c) => {
                    proof {
                        vstd::utf8::char_u32_cast(c, code);
                    }
                    out.push(c);
                },
                None => {
                    assert(false);
                },
            }
            proof {
                assert(rest.skip(1) =~= units@.skip(i as int + 1));
            }
            i = i + 1;
        }
    }
    proof {
        assert(units@.skip(n as int) =~= Seq::<u16>::empty());
    }
    out
}

/// Decodes UTF-16 code units into a string, substituting the replacement
/// character for unpaired surrogates.
pub fn utf16_lossy_string(units: &[u16]) -> (r: String)
    ensures
        r@ == utf16_lossy(units@),
{
    chars_to_string(utf16_lossy_chars(units))
}

/// The lowercase hexadecimal digit for a value below 16.
pub open spec fn hex_digit(d: u64) -> char {
    if d < 10 {
        (('0' as u32) + d as u32) as char
    } else {
        (('a' as u32) + (d - 10) as u32) as char
    }
}

/// The lowercase hexadecimal rendering of a value, without leading zeros;
/// zero renders as a single digit.
pub open spec fn hex_of(v: u64) -> Seq<char>
    decreases v,
{
    if v < 16 {
        seq![hex_digit(v)]
    } else {
        hex_of(v / 16) + seq![hex_digit(v % 16)]
    }
}

/// Computes the character with the hexadecimal digit for `d`.
fn hex_digit_char(d: u64) -> (r: char)
    requires
        d < 16,
    ensures
        r == hex_digit(d),
{
    let code: u32 = if d < 10 {
        ('0' as u32) + d as u32
    } else {
        ('a' as u32) + (d as u32 - 10)
    };
    match char::from_u32(code) {
        Some(c) => {
            proof {
                vstd::utf8::char_u32_cast(c, code);
            }
            c
        },
        None => {
            proof {
                assert(false);
            }
            '0'
        },
    }
}

/// Renders a value in lowercase hexadecimal, without leading zeros.
pub fn hex_chars(v: u64) -> (r: Vec<char>)
    ensures
        r@ == hex_of(v),
    decreases v,
{
    if v < 16 {
        let mut out: Vec<char> = Vec::new();
        out.push(hex_digit_char(v));
        out
    } else {
        proof {
            vstd::arithmetic::div_mod::lemma_div_decreases(v as int, 16);
            vstd::arithmetic::div_mod::lemma_div_pos_is_pos(v as int, 16);
        }
        let mut out = hex_chars(v / 16);
        out.push(hex_digit_char(v % 16));
        out
    }
}

/// Renders a value as a lowercase hexadecimal string.
pub fn hex_string(v: u64) -> (r: String)
    ensures
        r@ == hex_of(v),
{
    chars_to_string(hex_chars(v))
}


/// The decimal rendering of a value, without leading zeros; zero renders
/// as a single digit. Decimal digits are the first ten hexadecimal
/// digits.
pub open spec fn decimal_of(v: u64) -> Seq<char>
    decreases v,
{
    if v < 10 {
        seq![hex_digit(v)]
    } else {
        decimal_of(v / 10) + seq![hex_digit(v % 10)]
    }
}

/// Renders a value in decimal, without leading zeros.
pub fn decimal_chars(v: u64) -> (r: Vec<char>)
    ensures
        r@ == decimal_of(v),
    decreases v,
{
    if v < 10 {
        let mut out: Vec<char> = Vec::new();
        out.push(hex_digit_char(v));
        out
    } else {
        proof {
            vstd::arithmetic::div_mod::lemma_div_decreases(v as int, 10);
            vstd::arithmetic::div_mod::lemma_div_pos_is_pos(v as int, 10);
        }
        let mut out = decimal_chars(v / 10);
        out.push(hex_digit_char(v % 10));
        out
    }
}

/// Renders a value as a decimal string.
pub fn decimal_string(v: u64) -> (r: String)
    ensures
        r@ == decimal_of(v),
{
    chars_to_string(decimal_chars(v))
}

} // verus!
