//! Colors written as `#rrggbb`.
use vstd::prelude::*;

verus! {

/// The value of a hexadecimal digit, in either case; `None` for any other character.
pub open spec fn hex_digit_spec(c: char) -> Option<nat> {
    if '0' <= c && c <= '9' {
        Some((c as nat - '0' as nat) as nat)
    } else if 'a' <= c && c <= 'f' {
        Some((c as nat - 'a' as nat + 10) as nat)
    } else if 'A' <= c && c <= 'F' {
        Some((c as nat - 'A' as nat + 10) as nat)
    } else {
        None
    }
}

/// The byte written by two hexadecimal digits.
pub open spec fn hex_pair(a: char, b: char) -> u8 {
    (hex_digit_spec(a).unwrap() * 16 + hex_digit_spec(b).unwrap()) as u8
}

/// A color string without its optional leading `#`.
pub open spec fn color_digits(s: Seq<char>) -> Seq<char> {
    if s.len() > 0 && s[0] == '#' {
        s.drop_first()
    } else {
        s
    }
}

/// What a color string denotes: an optional `#` and then exactly six hexadecimal
/// digits, giving red, green and blue.
pub open spec fn parse_rgb_spec(s: Seq<char>) -> Option<(u8, u8, u8)> {
    let d = color_digits(s);
    if d.len() == 6 && forall|i: int| 0 <= i < 6 ==> (#[trigger] hex_digit_spec(d[i])) is Some {
        Some((hex_pair(d[0], d[1]), hex_pair(d[2], d[3]), hex_pair(d[4], d[5])))
    } else {
        None
    }
}

/// The ASCII codes that bound the digit and letter ranges.
const ASCII_HASH: u8 = 35;
const ASCII_ZERO: u8 = 48;
const ASCII_NINE: u8 = 57;
const ASCII_UPPER_A: u8 = 65;
const ASCII_UPPER_F: u8 = 70;
const ASCII_LOWER_A: u8 = 97;
const ASCII_LOWER_F: u8 = 102;

fn hex_digit(s: &str, i: usize) -> (r: Option<u8>)
    requires
        s.is_ascii(),
        i < s@.len(),
    ensures
        match hex_digit_spec(s@[i as int]) {
            Some(v) => r == Some(v as u8),
            None => r is None,
        },
{
    let b = s.get_ascii(i);
    assert(s@[i as int] as u32 == b as u32);
    if ASCII_ZERO <= b && b <= ASCII_NINE {
        Some(b - ASCII_ZERO)
    } else if ASCII_LOWER_A <= b && b <= ASCII_LOWER_F {
        Some(b - ASCII_LOWER_A + 10)
    } else if ASCII_UPPER_A <= b && b <= ASCII_UPPER_F {
        Some(b - ASCII_UPPER_A + 10)
    } else {
        None
    }
}

/// Reads a color such as `#1d1f21` or `FFAF00` into its red, green and blue bytes.
pub fn parse_rgb(s: &str) -> (r: Option<(u8, u8, u8)>)
    ensures
        r == parse_rgb_spec(s@),
{
    let ghost d = color_digits(s@);
    if !s.is_ascii() {
        proof {
            if d.len() == 6 && forall|i: int| 0 <= i < 6 ==> (#[trigger] hex_digit_spec(d[i])) is Some {
                assert forall|i: int| 0 <= i < s@.len() implies '\0' <= #[trigger] s@[i] <= '\u{7f}' by {
                    if s@[0] == '#' && i > 0 {
                        assert(d[i - 1] == s@[i]);
                        assert(hex_digit_spec(d[i - 1]) is Some);
                    } else if s@[0] != '#' {
                        assert(d[i] == s@[i]);
                        assert(hex_digit_spec(d[i]) is Some);
                    }
                }
            }
        }
        return None;
    }
    let n = s.unicode_len();
    let start: usize = if n > 0 && s.get_ascii(0) == ASCII_HASH {
        1
    } else {
        0
    };
    if n - start != 6 {
        return None;
    }
    let mut v: Vec<u8> = Vec::new();
    let mut i: usize = 0;
    while i < 6
        invariant
            s.is_ascii(),
            n == s@.len(),
            n - start == 6,
            d == color_digits(s@),
            d =~= s@.subrange(start as int, n as int),
            i <= 6,
            v@.len() == i,
            forall|j: int| 0 <= j < i ==> (#[trigger] hex_digit_spec(d[j])) is Some && v@[j]
                == hex_digit_spec(d[j]).unwrap(),
        decreases 6 - i,
    {
        match hex_digit(s, start + i) {
            Some(x) => {
                v.push(x);
            },
            None => {
                assert(d[i as int] == s@[(start + i) as int]);
                assert(hex_digit_spec(d[i as int]) is None);
                return None;
            },
        }
        i = i + 1;
    }
    Some((v[0] * 16 + v[1], v[2] * 16 + v[3], v[4] * 16 + v[5]))
}

} // verus!
