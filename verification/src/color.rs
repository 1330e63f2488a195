//! Colours written as `#rrggbb` or `#rrggbbaa`.
//!
//! A [`Color`] keeps its three channels and its alpha as the bytes that were
//! read. The accessors hand the channels out multiplied by the alpha, as
//! whole numbers on the scale [`CHANNEL_SCALE`].

use vstd::prelude::*;
use vstd::string::StrSliceExecFns;

verus! {

/// The value that stands for a channel at full strength: `255 * 255`.
///
/// A value `v` that an accessor of [`Color`] returns means `v / CHANNEL_SCALE`.
pub const CHANNEL_SCALE: u16 = 65025;

/// One of the two-digit groups of a colour code, in the order they are read.
#[derive(Clone, Copy, Debug, PartialEq, Eq, Structural)]
pub enum Channel {
    Red,
    Green,
    Blue,
    Alpha,
}

/// Why a text is not a colour.
#[derive(Clone, Copy, Debug, PartialEq, Eq, Structural)]
pub enum ColorParseError {
    /// The text does not begin with `#`.
    Malformed,
    /// The group of this channel is cut short or holds a character that is
    /// not a hexadecimal digit. It is the first such group.
    InvalidHex(Channel),
}

impl ColorParseError {
    /// The words that [`ColorParseError::message`] gives for each fault.
    pub open spec fn message_text(self) -> Seq<char> {
        match self {
            ColorParseError::Malformed => "Color parse error, colors mut be #rrggbb or #rrggbbaa"@,
            ColorParseError::InvalidHex(_) => "invalid digit found in string"@,
        }
    }

    /// The fault in words, for a person to read.
    pub fn message(&self) -> (text: &'static str)
        ensures
            text@ == self.message_text(),
    {
        match self {
            ColorParseError::Malformed => "Color parse error, colors mut be #rrggbb or #rrggbbaa",
            ColorParseError::InvalidHex(_) => "invalid digit found in string",
        }
    }
}

/// A colour with straight (not premultiplied) channels.
#[derive(Clone, Copy, Debug, PartialEq, Eq, Structural)]
pub struct Color {
    pub r: u8,
    pub g: u8,
    pub b: u8,
    /// Opacity in 255ths, from 0 (clear) to 255 (opaque).
    pub a: u8,
}

/// The value of a hexadecimal digit, in either case; `None` for any other
/// character.
pub open spec fn hex_digit_value(c: char) -> Option<u8> {
    if '0' <= c <= '9' {
        Some((c as u32 - '0' as u32) as u8)
    } else if 'a' <= c <= 'f' {
        Some((c as u32 - 'a' as u32 + 10) as u8)
    } else if 'A' <= c <= 'F' {
        Some((c as u32 - 'A' as u32 + 10) as u8)
    } else {
        None
    }
}

/// The byte that the two characters of `text` from `start` on spell in base
/// 16; `None` where the text ends before both are there or one of them is no
/// hexadecimal digit.
pub open spec fn hex_byte_at(text: Seq<char>, start: int) -> Option<u8> {
    if 0 <= start && start + 2 <= text.len() {
        match (hex_digit_value(text[start]), hex_digit_value(text[start + 1])) {
            (Some(high), Some(low)) => Some((16 * high + low) as u8),
            _ => None,
        }
    } else {
        None
    }
}

/// What a text means as a colour.
///
/// The text must begin with `#`. The next three pairs of characters are red,
/// green and blue. A text of more than seven characters has its alpha in the
/// fourth pair; a shorter one is opaque. Characters after the last pair that
/// is read are ignored. Of several faults the first in reading order is
/// reported.
pub open spec fn parse_color(text: Seq<char>) -> Result<Color, ColorParseError> {
    if text.len() == 0 || text[0] != '#' {
        Err(ColorParseError::Malformed)
    } else if hex_byte_at(text, 1) is None {
        Err(ColorParseError::InvalidHex(Channel::Red))
    } else if hex_byte_at(text, 3) is None {
        Err(ColorParseError::InvalidHex(Channel::Green))
    } else if hex_byte_at(text, 5) is None {
        Err(ColorParseError::InvalidHex(Channel::Blue))
    } else if text.len() > 7 && hex_byte_at(text, 7) is None {
        Err(ColorParseError::InvalidHex(Channel::Alpha))
    } else {
        Ok(
            Color {
                r: hex_byte_at(text, 1)->0,
                g: hex_byte_at(text, 3)->0,
                b: hex_byte_at(text, 5)->0,
                a: if text.len() > 7 {
                    hex_byte_at(text, 7)->0
                } else {
                    255
                },
            },
        )
    }
}

/// Decodes one hexadecimal digit.
pub fn hex_digit(c: char) -> (value: Option<u8>)
    ensures
        value == hex_digit_value(c),
        value matches Some(v) ==> v < 16,
{
    if '0' <= c && c <= '9' {
        Some((c as u32 - '0' as u32) as u8)
    } else if 'a' <= c && c <= 'f' {
        Some((c as u32 - 'a' as u32 + 10) as u8)
    } else if 'A' <= c && c <= 'F' {
        Some((c as u32 - 'A' as u32 + 10) as u8)
    } else {
        None
    }
}

/// Reads the two hexadecimal digits of `text` at `start` and `start + 1`.
/// `len` is the number of characters of `text`.
fn hex_byte(text: &str, len: usize, start: usize) -> (value: Option<u8>)
    requires
        len == text@.len(),
    ensures
        value == hex_byte_at(text@, start as int),
{
    if len < 2 || start > len - 2 {
        return None;
    }
    match (hex_digit(text.get_char(start)), hex_digit(text.get_char(start + 1))) {
        (Some(high), Some(low)) => Some(16 * high + low),
        _ => None,
    }
}

impl Color {
    /// Reads a colour from `#rrggbb` or `#rrggbbaa`.
    ///
    /// Digits may be of either case. Nothing but the two digits is accepted
    /// in a group, so a sign or a blank there is a fault.
    pub fn from_str(hex_code: &str) -> (result: Result<Color, ColorParseError>)
        ensures
            result == parse_color(hex_code@),
            // Exactly the texts that do not begin with `#` are malformed.
            (result matches Err(ColorParseError::Malformed)) <==> (hex_code@.len() == 0
                || hex_code@[0] != '#'),
            // A colour without an alpha group is opaque.
            result is Ok && hex_code@.len() <= 7 ==> result->Ok_0.a == 255,
            // An alpha group gives the alpha its byte.
            result is Ok && hex_code@.len() > 7 ==> hex_byte_at(hex_code@, 7) == Some(
                result->Ok_0.a,
            ),
    {
        let len: usize = hex_code.unicode_len();
        if len == 0 || hex_code.get_char(0) != '#' {
            return Err(ColorParseError::Malformed);
        }
        let r: u8 = match hex_byte(hex_code, len, 1) {
            Some(byte) => byte,
            None => return Err(ColorParseError::InvalidHex(Channel::Red)),
        };
        let g: u8 = match hex_byte(hex_code, len, 3) {
            Some(byte) => byte,
            None => return Err(ColorParseError::InvalidHex(Channel::Green)),
        };
        let b: u8 = match hex_byte(hex_code, len, 5) {
            Some(byte) => byte,
            None => return Err(ColorParseError::InvalidHex(Channel::Blue)),
        };
        let a: u8 = if len > 7 {
            match hex_byte(hex_code, len, 7) {
                Some(byte) => byte,
                None => return Err(ColorParseError::InvalidHex(Channel::Alpha)),
            }
        } else {
            255
        };
        Ok(Color { r, g, b, a })
    }

    /// A channel weighted by the alpha: the fraction `channel / 255` times
    /// the fraction `a / 255`, as a count of [`CHANNEL_SCALE`]ths.
    pub open spec fn premultiplied(self, channel: u8) -> int {
        channel * self.a
    }

    /// Red, premultiplied by the alpha.
    pub fn gl_red(&self) -> (value: u16)
        ensures
            value == self.premultiplied(self.r),
            value <= CHANNEL_SCALE,
    {
        self.gl(self.r)
    }

    /// Green, premultiplied by the alpha.
    pub fn gl_green(&self) -> (value: u16)
        ensures
            value == self.premultiplied(self.g),
            value <= CHANNEL_SCALE,
    {
        self.gl(self.g)
    }

    /// Blue, premultiplied by the alpha.
    pub fn gl_blue(&self) -> (value: u16)
        ensures
            value == self.premultiplied(self.b),
            value <= CHANNEL_SCALE,
    {
        self.gl(self.b)
    }

    /// The alpha itself, `a / 255`, on the same scale as the three channels.
    pub fn gl_alpha(&self) -> (value: u16)
        ensures
            value == 255 * self.a,
            value <= CHANNEL_SCALE,
    {
        255 * (self.a as u16)
    }

    /// Weights one channel byte by the alpha.
    fn gl(&self, color: u8) -> (value: u16)
        ensures
            value == self.premultiplied(color),
            value <= CHANNEL_SCALE,
    {
        assert(color * self.a <= 255 * 255) by (nonlinear_arith)
            requires
                color <= 255,
                self.a <= 255,
        ;
        (color as u16) * (self.a as u16)
    }
}

/// Reading a channel is repeatable: what each accessor returns is fixed by
/// the colour alone, so two reads of one colour agree.
pub proof fn lemma_channel_reads_agree(first: Color, second: Color)
    requires
        first == second,
    ensures
        first.premultiplied(first.r) == second.premultiplied(second.r),
        first.premultiplied(first.g) == second.premultiplied(second.g),
        first.premultiplied(first.b) == second.premultiplied(second.b),
        255 * first.a == 255 * second.a,
{
}

} // verus!
