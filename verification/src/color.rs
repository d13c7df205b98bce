//! Colour descriptors and their resolution to 8-bit RGBA channels.

use vstd::prelude::*;
use vstd::string::*;

verus! {

/// A colour as four 8-bit channels; the value handed to the graphics backend.
#[derive(Clone, Copy, Debug, PartialEq, Eq, Structural)]
pub struct Rgba8 {
    pub r: u8,
    pub g: u8,
    pub b: u8,
    pub a: u8,
}

/// Why a hex colour descriptor was rejected.
#[derive(Clone, Copy, Debug, PartialEq, Eq, Structural)]
pub enum InvalidColorFormat {
    /// Without its leading `#`, the descriptor is not 3, 6 or 8 characters long.
    Length,
    /// The length is accepted but some character is not a hexadecimal digit.
    Digit,
}

/// A colour descriptor as written by the user of the toolkit.
#[derive(Clone, Copy, Debug)]
pub enum Color {
    /// `rgb`, `rrggbb` or `rrggbbaa` in hexadecimal, with or without a leading `#`.
    Hex(&'static str),
    Rgba(u8, u8, u8, u8),
    Rgb(u8, u8, u8),
}

/// The value of a hexadecimal digit, in either case.
pub open spec fn hex_value(c: char) -> Option<u8> {
    let v = c as u32;
    if 48 <= v <= 57 {
        Some((v - 48) as u8)
    } else if 97 <= v <= 102 {
        Some((v - 87) as u8)
    } else if 65 <= v <= 70 {
        Some((v - 55) as u8)
    } else {
        None
    }
}

/// The descriptor without one leading `#`, if it has one.
pub open spec fn strip_hash(s: Seq<char>) -> Seq<char> {
    if s.len() > 0 && s[0] == '#' {
        s.skip(1)
    } else {
        s
    }
}

/// Whether every character of `s` is a hexadecimal digit.
pub open spec fn all_hex(s: Seq<char>) -> bool {
    forall|i: int| 0 <= i < s.len() ==> (#[trigger] hex_value(s[i])) is Some
}

/// The channel written as the single digit `s[i]`, which counts twice.
pub open spec fn short_channel(s: Seq<char>, i: int) -> u8 {
    (17 * hex_value(s[i]).unwrap()) as u8
}

/// The channel written as the two digits `s[i]`, `s[i + 1]`.
pub open spec fn long_channel(s: Seq<char>, i: int) -> u8 {
    (16 * hex_value(s[i]).unwrap() + hex_value(s[i + 1]).unwrap()) as u8
}

/// What a hex descriptor denotes: the channels it spells, or the reason it is
/// rejected. Three and six digits give an opaque colour.
pub open spec fn parse_hex(s: Seq<char>) -> Result<Rgba8, InvalidColorFormat> {
    let d = strip_hash(s);
    if d.len() != 3 && d.len() != 6 && d.len() != 8 {
        Err(InvalidColorFormat::Length)
    } else if !all_hex(d) {
        Err(InvalidColorFormat::Digit)
    } else if d.len() == 3 {
        Ok(
            Rgba8 {
                r: short_channel(d, 0),
                g: short_channel(d, 1),
                b: short_channel(d, 2),
                a: 255,
            },
        )
    } else if d.len() == 6 {
        Ok(Rgba8 { r: long_channel(d, 0), g: long_channel(d, 2), b: long_channel(d, 4), a: 255 })
    } else {
        Ok(
            Rgba8 {
                r: long_channel(d, 0),
                g: long_channel(d, 2),
                b: long_channel(d, 4),
                a: long_channel(d, 6),
            },
        )
    }
}

/// The value of one hexadecimal digit, or `None` for any other character.
pub fn hex_digit(c: char) -> (v: Option<u8>)
    ensures
        v == hex_value(c),
        v matches Some(d) ==> d < 16,
{
    let code: u32 = c as u32;
    if 48 <= code && code <= 57 {
        Some((code - 48) as u8)
    } else if 97 <= code && code <= 102 {
        Some((code - 87) as u8)
    } else if 65 <= code && code <= 70 {
        Some((code - 55) as u8)
    } else {
        None
    }
}

/// Reads `count` hexadecimal digits of `s` starting at character `from`.
/// Gives `None` as soon as one of them is not a digit.
fn read_digits(s: &str, from: usize, count: usize) -> (digits: Option<Vec<u8>>)
    requires
        from + count <= s@.len(),
        from + count <= usize::MAX,
    ensures
        digits is Some <==> all_hex(s@.subrange(from as int, from + count)),
        digits matches Some(v) ==> {
            &&& v@.len() == count
            &&& forall|i: int|
                0 <= i < count ==> hex_value(s@[from + i]) == Some(#[trigger] v@[i])
            &&& forall|i: int| 0 <= i < count ==> (#[trigger] v@[i]) < 16
        },
{
    let ghost window = s@.subrange(from as int, from + count);
    let mut out: Vec<u8> = Vec::new();
    let mut i: usize = 0;
    while i < count
        invariant
            i <= count,
            from + count <= s@.len(),
            from + count <= usize::MAX,
            window == s@.subrange(from as int, from + count),
            out@.len() == i,
            forall|k: int| 0 <= k < i ==> hex_value(s@[from + k]) == Some(#[trigger] out@[k]),
            forall|k: int| 0 <= k < i ==> (#[trigger] out@[k]) < 16,
        decreases count - i,
    {
        match hex_digit(s.get_char(from + i)) {
            Some(d) => {
                out.push(d);
            },
            None => {
                assert(hex_value(window[i as int]) is None);
                return None;
            },
        }
        i += 1;
    }
    assert forall|k: int| 0 <= k < window.len() implies (#[trigger] hex_value(window[k])) is Some by {
        assert(hex_value(s@[from + k]) == Some(out@[k]));
    }
    Some(out)
}

impl Color {
    pub fn default_hex() -> (c: Color)
        ensures
            c == Color::Hex("#1e1d2d"),
    {
        Color::Hex("#1e1d2d")
    }

    pub fn default_rgb() -> (c: Color)
        ensures
            c == Color::Rgb(30, 29, 45),
    {
        Color::Rgb(30, 29, 45)
    }

    pub fn default_rgba() -> (c: Color)
        ensures
            c == Color::Rgba(30, 29, 45, 100),
    {
        Color::Rgba(30, 29, 45, 100)
    }

    /// The channels this descriptor resolves to, or why it is malformed.
    pub open spec fn resolved(self) -> Result<Rgba8, InvalidColorFormat> {
        match self {
            Color::Hex(hex) => parse_hex(hex@),
            Color::Rgb(r, g, b) => Ok(Rgba8 { r, g, b, a: 255 }),
            Color::Rgba(r, g, b, a) => Ok(Rgba8 { r, g, b, a }),
        }
    }

    /// Resolves the descriptor to channels. Tuples always resolve; a hex string
    /// resolves exactly when it spells 3, 6 or 8 hexadecimal digits.
    pub fn into(self) -> (res: Result<Rgba8, InvalidColorFormat>)
        ensures
            res == self.resolved(),
    {
        match self {
            Color::Hex(hex) => parse_hex_str(hex),
            Color::Rgb(r, g, b) => Ok(Rgba8 { r, g, b, a: 255 }),
            Color::Rgba(r, g, b, a) => Ok(Rgba8 { r, g, b, a }),
        }
    }
}

/// Resolves a hex descriptor, see [`parse_hex`].
pub fn parse_hex_str(hex: &str) -> (res: Result<Rgba8, InvalidColorFormat>)
    ensures
        res == parse_hex(hex@),
{
    let total: usize = hex.unicode_len();
    let start: usize = if total > 0 && hex.get_char(0) == '#' {
        1
    } else {
        0
    };
    let count: usize = total - start;
    let ghost d = strip_hash(hex@);
    assert(d =~= hex@.subrange(start as int, start + count));
    if count != 3 && count != 6 && count != 8 {
        return Err(InvalidColorFormat::Length);
    }
    match read_digits(hex, start, count) {
        None => Err(InvalidColorFormat::Digit),
        Some(v) => {
            assert(forall|i: int| 0 <= i < count ==> d[i] == hex@[start + i]);
            if count == 3 {
                Ok(Rgba8 { r: 17 * v[0], g: 17 * v[1], b: 17 * v[2], a: 255 })
            } else if count == 6 {
                Ok(
                    Rgba8 {
                        r: 16 * v[0] + v[1],
                        g: 16 * v[2] + v[3],
                        b: 16 * v[4] + v[5],
                        a: 255,
                    },
                )
            } else {
                Ok(
                    Rgba8 {
                        r: 16 * v[0] + v[1],
                        g: 16 * v[2] + v[3],
                        b: 16 * v[4] + v[5],
                        a: 16 * v[6] + v[7],
                    },
                )
            }
        },
    }
}

} // verus!
