//! Colors: four channels clamped to the unit interval, byte and hex-string
//! construction, and the table of known color names. The hex parsing is pure
//! byte logic and fully verified; the channel conversions state their result
//! as the exact composition of the named IEEE-754 operations.

use vstd::prelude::*;

verus! {

use crate::arith::div_of;
use crate::arith::mul_of;
use crate::arith::div_bits;
use crate::arith::mul_bits;
use vstd::string::StringSliceAdditionalSpecFns;
use crate::ieee;
use crate::ieee::POS_ZERO;
use crate::ieee::ONE_BITS;
use crate::ieee::from_i32_bits;
use crate::ieee::to_u8_cast;
use crate::math::Math;
use crate::math::spec_approx_epsilon;
use crate::math::spec_clamp;
use crate::math::APPROX_EPSILON_BITS;

/// Bit pattern of 255.0, the byte-to-channel scale.
pub const F255_BITS: u32 = 0x437F_0000;

/// A color whose four channels each lie between 0.0 and 1.0, carried as
/// single-precision bit patterns.
#[derive(Debug, Clone, Copy)]
pub struct Color {
    /// The red channel of the color.
    pub r: u32,
    /// The green channel of the color.
    pub g: u32,
    /// The blue channel of the color.
    pub b: u32,
    /// The alpha channel of the color.
    pub a: u32,
}

/// What the float constructor returns: every channel clamped to [0, 1].
pub open spec fn spec_new_alpha(r: u32, g: u32, b: u32, a: u32) -> Color {
    Color {
        r: spec_clamp(r, POS_ZERO, ONE_BITS),
        g: spec_clamp(g, POS_ZERO, ONE_BITS),
        b: spec_clamp(b, POS_ZERO, ONE_BITS),
        a: spec_clamp(a, POS_ZERO, ONE_BITS),
    }
}

/// What the byte constructor returns: every byte divided by 255.
pub open spec fn spec_new_rgba(r: u8, g: u8, b: u8, a: u8) -> Color {
    spec_new_alpha(
        div_of(from_i32_bits(r as int), F255_BITS),
        div_of(from_i32_bits(g as int), F255_BITS),
        div_of(from_i32_bits(b as int), F255_BITS),
        div_of(from_i32_bits(a as int), F255_BITS),
    )
}

/// The value of one hexadecimal digit byte, or -1 if the byte is no digit.
pub open spec fn hex_digit_val(b: u8) -> int {
    if 48 <= b <= 57 {
        b - 48
    } else if 65 <= b <= 70 {
        b - 55
    } else if 97 <= b <= 102 {
        b - 87
    } else {
        -1
    }
}

/// The hexadecimal digits of a byte string folded into a byte, from digit
/// index `i` with accumulator `acc`; an invalid digit or an overflow past
/// 255 yields nothing.
pub open spec fn spec_hex_fold(s: Seq<u8>, i: int, acc: int) -> Option<u8>
    decreases s.len() - i
    when 0 <= i <= s.len()
{
    if i >= s.len() {
        Option::Some(acc as u8)
    } else {
        let d = hex_digit_val(s[i]);
        if d < 0 {
            Option::None
        } else if acc * 16 + d > 255 {
            Option::None
        } else {
            spec_hex_fold(s, i + 1, acc * 16 + d)
        }
    }
}

/// What parsing a byte string as a base-16 byte yields: an optional leading
/// plus sign, then at least one digit, with overflow rejected.
pub open spec fn spec_hex_u8(s: Seq<u8>) -> Option<u8> {
    if s.len() > 0 && s[0] == 43 {
        if s.len() == 1 {
            Option::None
        } else {
            spec_hex_fold(s, 1, 0)
        }
    } else if s.len() == 0 {
        Option::None
    } else {
        spec_hex_fold(s, 0, 0)
    }
}

/// The byte value of one doubled hexadecimal digit, or -1 if the byte is no
/// digit.
pub open spec fn spec_doubled(b: u8) -> int {
    let d = hex_digit_val(b);
    if d < 0 {
        -1
    } else {
        d * 17
    }
}

/// The byte value of two hexadecimal digits, or -1 if either byte is no
/// digit.
pub open spec fn spec_pair(b1: u8, b2: u8) -> int {
    let d1 = hex_digit_val(b1);
    let d2 = hex_digit_val(b2);
    if d1 < 0 || d2 < 0 {
        -1
    } else {
        d1 * 16 + d2
    }
}

/// What parsing a hex color string yields: a leading '#', then three or four
/// single (doubled) or paired digit channels by total length; unhandled
/// lengths fall back to opaque black, missing alpha to 255.
pub open spec fn spec_from_hex(s: Seq<u8>) -> Option<Color> {
    if s.len() == 0 || s[0] != 35 {
        Option::None
    } else if s.len() == 4 || s.len() == 5 {
        let r = spec_doubled(s[1]);
        let g = spec_doubled(s[2]);
        let b = spec_doubled(s[3]);
        if r < 0 || g < 0 || b < 0 {
            Option::None
        } else if s.len() == 5 {
            let a = spec_doubled(s[4]);
            if a < 0 {
                Option::None
            } else {
                Option::Some(spec_new_rgba(r as u8, g as u8, b as u8, a as u8))
            }
        } else {
            Option::Some(spec_new_rgba(r as u8, g as u8, b as u8, 255))
        }
    } else if s.len() == 7 || s.len() == 9 {
        let r = spec_pair(s[1], s[2]);
        let g = spec_pair(s[3], s[4]);
        let b = spec_pair(s[5], s[6]);
        if r < 0 || g < 0 || b < 0 {
            Option::None
        } else if s.len() == 9 {
            let a = spec_pair(s[7], s[8]);
            if a < 0 {
                Option::None
            } else {
                Option::Some(spec_new_rgba(r as u8, g as u8, b as u8, a as u8))
            }
        } else {
            Option::Some(spec_new_rgba(r as u8, g as u8, b as u8, 255))
        }
    } else {
        Option::Some(spec_new_rgba(0, 0, 0, 255))
    }
}

impl Color {
    /// Creates a new color from float channels, clamping each to [0, 1];
    /// the alpha channel is 1.
    pub fn new(r: u32, g: u32, b: u32) -> (c: Self)
        ensures
            c == spec_new_alpha(r, g, b, ONE_BITS),
    {
        Color::new_alpha(r, g, b, ONE_BITS)
    }

    /// Creates a new color from four float channels, clamping each to
    /// [0, 1].
    pub fn new_alpha(r: u32, g: u32, b: u32, a: u32) -> (c: Self)
        ensures
            c == spec_new_alpha(r, g, b, a),
    {
        proof {
            ieee::lemma_fields(POS_ZERO);
            ieee::lemma_fields(ONE_BITS);
        }
        Color {
            r: Math::clamp(r, POS_ZERO, ONE_BITS),
            g: Math::clamp(g, POS_ZERO, ONE_BITS),
            b: Math::clamp(b, POS_ZERO, ONE_BITS),
            a: Math::clamp(a, POS_ZERO, ONE_BITS),
        }
    }

    /// Creates a new color from four byte channels.
    pub fn new_rgba(r: u8, g: u8, b: u8, a: u8) -> (c: Self)
        ensures
            c == spec_new_rgba(r, g, b, a),
    {
        Color::new_alpha(
            div_bits(ieee::i32_to_f32(r as i32), F255_BITS),
            div_bits(ieee::i32_to_f32(g as i32), F255_BITS),
            div_bits(ieee::i32_to_f32(b as i32), F255_BITS),
            div_bits(ieee::i32_to_f32(a as i32), F255_BITS),
        )
    }

    /// Creates a new color from three byte channels; the alpha byte is 255.
    pub fn new_rgb(r: u8, g: u8, b: u8) -> (c: Self)
        ensures
            c == spec_new_rgba(r, g, b, 255),
    {
        Color::new_rgba(r, g, b, 255)
    }

    /// Creates a new color from a known name or a hex code: the name must
    /// match a table entry byte for byte, and a string that matches no name
    /// is parsed as a hex code; anything else gives opaque black.
    pub fn new_str(name_or_hex: &str) -> (c: Self)
        ensures
            c == (match spec_from_known_name(name_or_hex) {
                Option::Some(color) => color,
                Option::None => spec_new_alpha(POS_ZERO, POS_ZERO, POS_ZERO, ONE_BITS),
            }),
    {
        match from_known_name(name_or_hex) {
            Option::Some(color) => color,
            Option::None => Color::new(POS_ZERO, POS_ZERO, POS_ZERO),
        }
    }

    /// Gets the red channel of the color.
    pub fn red(&self) -> (r: u32)
        ensures
            r == self.r,
    {
        self.r
    }

    /// Sets the red channel, clamped to [0, 1].
    pub fn set_red(&mut self, value: u32)
        ensures
            final(self).r == spec_clamp(value, POS_ZERO, ONE_BITS),
            final(self).g == old(self).g,
            final(self).b == old(self).b,
            final(self).a == old(self).a,
    {
        proof {
            ieee::lemma_fields(POS_ZERO);
            ieee::lemma_fields(ONE_BITS);
        }
        self.r = Math::clamp(value, POS_ZERO, ONE_BITS);
    }

    /// Gets the red channel as a byte.
    pub fn red_as_byte(&self) -> (r: u8)
        ensures
            r as int == to_u8_cast(mul_of(self.r, F255_BITS)),
    {
        ieee::f32_to_u8(mul_bits(self.r, F255_BITS))
    }

    /// Sets the red channel from a byte.
    pub fn set_red_as_byte(&mut self, value: u8)
        ensures
            final(self).r == div_of(from_i32_bits(value as int), F255_BITS),
            final(self).g == old(self).g,
            final(self).b == old(self).b,
            final(self).a == old(self).a,
    {
        self.r = div_bits(ieee::i32_to_f32(value as i32), F255_BITS);
    }

    /// Gets the green channel of the color.
    pub fn green(&self) -> (r: u32)
        ensures
            r == self.g,
    {
        self.g
    }

    /// Sets the green channel, clamped to [0, 1].
    pub fn set_green(&mut self, value: u32)
        ensures
            final(self).g == spec_clamp(value, POS_ZERO, ONE_BITS),
            final(self).r == old(self).r,
            final(self).b == old(self).b,
            final(self).a == old(self).a,
    {
        proof {
            ieee::lemma_fields(POS_ZERO);
            ieee::lemma_fields(ONE_BITS);
        }
        self.g = Math::clamp(value, POS_ZERO, ONE_BITS);
    }

    /// Gets the green channel as a byte.
    pub fn green_as_byte(&self) -> (r: u8)
        ensures
            r as int == to_u8_cast(mul_of(self.g, F255_BITS)),
    {
        ieee::f32_to_u8(mul_bits(self.g, F255_BITS))
    }

    /// Sets the green channel from a byte.
    pub fn set_green_as_byte(&mut self, value: u8)
        ensures
            final(self).g == div_of(from_i32_bits(value as int), F255_BITS),
            final(self).r == old(self).r,
            final(self).b == old(self).b,
            final(self).a == old(self).a,
    {
        self.g = div_bits(ieee::i32_to_f32(value as i32), F255_BITS);
    }

    /// Gets the blue channel of the color.
    pub fn blue(&self) -> (r: u32)
        ensures
            r == self.b,
    {
        self.b
    }

    /// Sets the blue channel, clamped to [0, 1].
    pub fn set_blue(&mut self, value: u32)
        ensures
            final(self).b == spec_clamp(value, POS_ZERO, ONE_BITS),
            final(self).r == old(self).r,
            final(self).g == old(self).g,
            final(self).a == old(self).a,
    {
        proof {
            ieee::lemma_fields(POS_ZERO);
            ieee::lemma_fields(ONE_BITS);
        }
        self.b = Math::clamp(value, POS_ZERO, ONE_BITS);
    }

    /// Gets the blue channel as a byte.
    pub fn blue_as_byte(&self) -> (r: u8)
        ensures
            r as int == to_u8_cast(mul_of(self.b, F255_BITS)),
    {
        ieee::f32_to_u8(mul_bits(self.b, F255_BITS))
    }

    /// Sets the blue channel from a byte.
    pub fn set_blue_as_byte(&mut self, value: u8)
        ensures
            final(self).b == div_of(from_i32_bits(value as int), F255_BITS),
            final(self).r == old(self).r,
            final(self).g == old(self).g,
            final(self).a == old(self).a,
    {
        self.b = div_bits(ieee::i32_to_f32(value as i32), F255_BITS);
    }

    /// Gets the alpha channel of the color.
    pub fn alpha(&self) -> (r: u32)
        ensures
            r == self.a,
    {
        self.a
    }

    /// Sets the alpha channel, clamped to [0, 1].
    pub fn set_alpha(&mut self, value: u32)
        ensures
            final(self).a == spec_clamp(value, POS_ZERO, ONE_BITS),
            final(self).r == old(self).r,
            final(self).g == old(self).g,
            final(self).b == old(self).b,
    {
        proof {
            ieee::lemma_fields(POS_ZERO);
            ieee::lemma_fields(ONE_BITS);
        }
        self.a = Math::clamp(value, POS_ZERO, ONE_BITS);
    }

    /// Gets the alpha channel as a byte.
    pub fn alpha_as_byte(&self) -> (r: u8)
        ensures
            r as int == to_u8_cast(mul_of(self.a, F255_BITS)),
    {
        ieee::f32_to_u8(mul_bits(self.a, F255_BITS))
    }

    /// Sets the alpha channel from a byte.
    pub fn set_alpha_as_byte(&mut self, value: u8)
        ensures
            final(self).a == div_of(from_i32_bits(value as int), F255_BITS),
            final(self).r == old(self).r,
            final(self).g == old(self).g,
            final(self).b == old(self).b,
    {
        self.a = div_bits(ieee::i32_to_f32(value as i32), F255_BITS);
    }
}

impl PartialEq for Color {
    /// Componentwise approximate equality with tolerance 1e-6.
    fn eq(&self, other: &Self) -> (r: bool) {
        Math::approx(self.r, other.r) && Math::approx(self.g, other.g) && Math::approx(
            self.b,
            other.b,
        ) && Math::approx(self.a, other.a)
    }
}

impl vstd::std_specs::cmp::PartialEqSpecImpl for Color {
    open spec fn obeys_eq_spec() -> bool {
        true
    }

    open spec fn eq_spec(&self, other: &Color) -> bool {
        spec_approx_epsilon(self.r, other.r, APPROX_EPSILON_BITS) && spec_approx_epsilon(
            self.g,
            other.g,
            APPROX_EPSILON_BITS,
        ) && spec_approx_epsilon(self.b, other.b, APPROX_EPSILON_BITS) && spec_approx_epsilon(
            self.a,
            other.a,
            APPROX_EPSILON_BITS,
        )
    }
}

/// The value of one hexadecimal digit byte, or -1 if the byte is no digit.
fn hex_digit(b: u8) -> (r: i32)
    ensures
        r == hex_digit_val(b),
{
    let v = b as i32;
    if 48 <= v && v <= 57 {
        v - 48
    } else if 65 <= v && v <= 70 {
        v - 55
    } else if 97 <= v && v <= 102 {
        v - 87
    } else {
        -1
    }
}

/// The byte value of one doubled hexadecimal digit, or -1.
fn doubled_hex(b: u8) -> (r: i32)
    ensures
        r == spec_doubled(b),
{
    let d = hex_digit(b);
    if d < 0 {
        -1
    } else {
        d * 17
    }
}

/// The byte value of two hexadecimal digits, or -1.
fn pair_hex(b1: u8, b2: u8) -> (r: i32)
    ensures
        r == spec_pair(b1, b2),
{
    let d1 = hex_digit(b1);
    let d2 = hex_digit(b2);
    if d1 < 0 || d2 < 0 {
        -1
    } else {
        d1 * 16 + d2
    }
}

/// Parses one or more hexadecimal digits into a byte, then doubles the
/// digit value into both halves of the byte: digit d becomes 17·d. A parse
/// whose value exceeds 15 is left out: doubling it would not fit a byte.
pub fn get_byte_from_doubled_hex(hex: &str) -> (r: Result<u8, ()>)
    requires
        (match spec_hex_u8(hex.spec_bytes()) {
            Option::Some(d) => d <= 15,
            Option::None => true,
        }),
    ensures
        r == (match spec_hex_u8(hex.spec_bytes()) {
            Option::Some(d) => Result::<u8, ()>::Ok((17 * d) as u8),
            Option::None => Result::<u8, ()>::Err(()),
        }),
{
    let bytes = hex.as_bytes();
    let n = bytes.len();
    let mut i: usize = 0;
    if n > 0 && bytes[0] == 43 {
        i = 1;
    }
    if i >= n {
        return Result::Err(());
    }
    let ghost s = hex.spec_bytes();
    let ghost start = i as int;
    let mut acc: u32 = 0;
    while i < n
        invariant
            start <= i <= n,
            n == s.len(),
            bytes@ == s,
            s == hex.spec_bytes(),
            acc <= 255,
            spec_hex_u8(s) == spec_hex_fold(s, i as int, acc as int),
        decreases n - i,
    {
        let d = hex_digit(bytes[i]);
        if d < 0 {
            return Result::Err(());
        }
        if acc * 16 + (d as u32) > 255 {
            return Result::Err(());
        }
        acc = acc * 16 + (d as u32);
        i = i + 1;
    }
    let num = acc as u8;
    Result::Ok(num * 16 + num)
}

/// Parses a hex color string of the form #rgb, #rgba, #rrggbb or #rrggbbaa.
pub fn from_hex(hex: &str) -> (r: Option<Color>)
    ensures
        r == spec_from_hex(hex.spec_bytes()),
{
    let bytes = hex.as_bytes();
    let n = bytes.len();
    if n == 0 || bytes[0] != 35 {
        return Option::None;
    }
    if n == 4 || n == 5 {
        let r = doubled_hex(bytes[1]);
        let g = doubled_hex(bytes[2]);
        let b = doubled_hex(bytes[3]);
        if r < 0 || g < 0 || b < 0 {
            return Option::None;
        }
        if n == 5 {
            let a = doubled_hex(bytes[4]);
            if a < 0 {
                return Option::None;
            }
            return Option::Some(Color::new_rgba(r as u8, g as u8, b as u8, a as u8));
        }
        return Option::Some(Color::new_rgba(r as u8, g as u8, b as u8, 255));
    }
    if n == 7 || n == 9 {
        let r = pair_hex(bytes[1], bytes[2]);
        let g = pair_hex(bytes[3], bytes[4]);
        let b = pair_hex(bytes[5], bytes[6]);
        if r < 0 || g < 0 || b < 0 {
            return Option::None;
        }
        if n == 9 {
            let a = pair_hex(bytes[7], bytes[8]);
            if a < 0 {
                return Option::None;
            }
            return Option::Some(Color::new_rgba(r as u8, g as u8, b as u8, a as u8));
        }
        return Option::Some(Color::new_rgba(r as u8, g as u8, b as u8, 255));
    }
    Option::Some(Color::new_rgba(0, 0, 0, 255))
}

/// Whether two byte slices hold the same bytes.
fn bytes_eq(a: &[u8], b: &[u8]) -> (r: bool)
    ensures
        r == (a@ =~= b@),
{
    if a.len() != b.len() {
        return false;
    }
    let n = a.len();
    let mut i: usize = 0;
    while i < n
        invariant
            i <= n,
            n == a@.len() == b@.len(),
            forall|j: int| 0 <= j < i ==> a@[j] == b@[j],
        decreases n - i,
    {
        if a[i] != b[i] {
            return false;
        }
        i = i + 1;
    }
    true
}

/// Whether two strings hold the same bytes.
fn str_eq(a: &str, b: &str) -> (r: bool)
    ensures
        r == (a.spec_bytes() =~= b.spec_bytes()),
{
    bytes_eq(a.as_bytes(), b.as_bytes())
}

/// What looking a color string up yields: the hex value of the table entry
/// whose bytes match the name exactly, and otherwise whatever parsing the
/// string itself as a hex code gives.
pub open spec fn spec_from_known_name(name: &str) -> Option<Color> {
    if name.spec_bytes() == "aliceblue".spec_bytes() {
        spec_from_hex("#F0F8FF".spec_bytes())
    } else if name.spec_bytes() == "antiquewhite".spec_bytes() {
        spec_from_hex("#FAEBD7".spec_bytes())
    } else if name.spec_bytes() == "aqua".spec_bytes() {
        spec_from_hex("#00FFFF".spec_bytes())
    } else if name.spec_bytes() == "aquamarine".spec_bytes() {
        spec_from_hex("#7FFFD4".spec_bytes())
    } else if name.spec_bytes() == "azure".spec_bytes() {
        spec_from_hex("#F0FFFF".spec_bytes())
    } else if name.spec_bytes() == "beige".spec_bytes() {
        spec_from_hex("#F5F5DC".spec_bytes())
    } else if name.spec_bytes() == "bisque".spec_bytes() {
        spec_from_hex("#FFE4C4".spec_bytes())
    } else if name.spec_bytes() == "black".spec_bytes() {
        spec_from_hex("#000000".spec_bytes())
    } else if name.spec_bytes() == "blanchedalmond".spec_bytes() {
        spec_from_hex("#FFEBCD".spec_bytes())
    } else if name.spec_bytes() == "blue".spec_bytes() {
        spec_from_hex("#0000FF".spec_bytes())
    } else if name.spec_bytes() == "blueviolet".spec_bytes() {
        spec_from_hex("#8A2BE2".spec_bytes())
    } else if name.spec_bytes() == "brown".spec_bytes() {
        spec_from_hex("#A52A2A".spec_bytes())
    } else if name.spec_bytes() == "burlywood".spec_bytes() {
        spec_from_hex("#DEB887".spec_bytes())
    } else if name.spec_bytes() == "cadetblue".spec_bytes() {
        spec_from_hex("#5F9EA0".spec_bytes())
    } else if name.spec_bytes() == "chartreuse".spec_bytes() {
        spec_from_hex("#7FFF00".spec_bytes())
    } else if name.spec_bytes() == "chocolate".spec_bytes() {
        spec_from_hex("#D2691E".spec_bytes())
    } else if name.spec_bytes() == "coral".spec_bytes() {
        spec_from_hex("#FF7F50".spec_bytes())
    } else if name.spec_bytes() == "cornflowerblue".spec_bytes() {
        spec_from_hex("#6495ED".spec_bytes())
    } else if name.spec_bytes() == "cornsilk".spec_bytes() {
        spec_from_hex("#FFF8DC".spec_bytes())
    } else if name.spec_bytes() == "crimson".spec_bytes() {
        spec_from_hex("#DC143C".spec_bytes())
    } else if name.spec_bytes() == "cyan".spec_bytes() {
        spec_from_hex("#00FFFF".spec_bytes())
    } else if name.spec_bytes() == "darkblue".spec_bytes() {
        spec_from_hex("#00008B".spec_bytes())
    } else if name.spec_bytes() == "darkcyan".spec_bytes() {
        spec_from_hex("#008B8B".spec_bytes())
    } else if name.spec_bytes() == "darkgoldenrod".spec_bytes() {
        spec_from_hex("#B8860B".spec_bytes())
    } else if name.spec_bytes() == "darkgray".spec_bytes() {
        spec_from_hex("#A9A9A9".spec_bytes())
    } else if name.spec_bytes() == "darkgrey".spec_bytes() {
        spec_from_hex("#A9A9A9".spec_bytes())
    } else if name.spec_bytes() == "darkgreen".spec_bytes() {
        spec_from_hex("#006400".spec_bytes())
    } else if name.spec_bytes() == "darkkhaki".spec_bytes() {
        spec_from_hex("#BDB76B".spec_bytes())
    } else if name.spec_bytes() == "darkmagenta".spec_bytes() {
        spec_from_hex("#8B008B".spec_bytes())
    } else if name.spec_bytes() == "darkolivegreen".spec_bytes() {
        spec_from_hex("#556B2F".spec_bytes())
    } else if name.spec_bytes() == "darkorange".spec_bytes() {
        spec_from_hex("#FF8C00".spec_bytes())
    } else if name.spec_bytes() == "darkorchid".spec_bytes() {
        spec_from_hex("#9932CC".spec_bytes())
    } else if name.spec_bytes() == "darkred".spec_bytes() {
        spec_from_hex("#8B0000".spec_bytes())
    } else if name.spec_bytes() == "darksalmon".spec_bytes() {
        spec_from_hex("#E9967A".spec_bytes())
    } else if name.spec_bytes() == "darkseagreen".spec_bytes() {
        spec_from_hex("#8FBC8F".spec_bytes())
    } else if name.spec_bytes() == "darkslateblue".spec_bytes() {
        spec_from_hex("#483D8B".spec_bytes())
    } else if name.spec_bytes() == "darkslategray".spec_bytes() {
        spec_from_hex("#2F4F4F".spec_bytes())
    } else if name.spec_bytes() == "darkslategrey".spec_bytes() {
        spec_from_hex("#2F4F4F".spec_bytes())
    } else if name.spec_bytes() == "darkturquoise".spec_bytes() {
        spec_from_hex("#00CED1".spec_bytes())
    } else if name.spec_bytes() == "darkviolet".spec_bytes() {
        spec_from_hex("#9400D3".spec_bytes())
    } else if name.spec_bytes() == "deeppink".spec_bytes() {
        spec_from_hex("#FF1493".spec_bytes())
    } else if name.spec_bytes() == "deepskyblue".spec_bytes() {
        spec_from_hex("#00BFFF".spec_bytes())
    } else if name.spec_bytes() == "dimgray".spec_bytes() {
        spec_from_hex("#696969".spec_bytes())
    } else if name.spec_bytes() == "dimgrey".spec_bytes() {
        spec_from_hex("#696969".spec_bytes())
    } else if name.spec_bytes() == "dodgerblue".spec_bytes() {
        spec_from_hex("#1E90FF".spec_bytes())
    } else if name.spec_bytes() == "firebrick".spec_bytes() {
        spec_from_hex("#B22222".spec_bytes())
    } else if name.spec_bytes() == "floralwhite".spec_bytes() {
        spec_from_hex("#FFFAF0".spec_bytes())
    } else if name.spec_bytes() == "forestgreen".spec_bytes() {
        spec_from_hex("#228B22".spec_bytes())
    } else if name.spec_bytes() == "fuchsia".spec_bytes() {
        spec_from_hex("#FF00FF".spec_bytes())
    } else if name.spec_bytes() == "gainsboro".spec_bytes() {
        spec_from_hex("#DCDCDC".spec_bytes())
    } else if name.spec_bytes() == "ghostwhite".spec_bytes() {
        spec_from_hex("#F8F8FF".spec_bytes())
    } else if name.spec_bytes() == "gold".spec_bytes() {
        spec_from_hex("#FFD700".spec_bytes())
    } else if name.spec_bytes() == "goldenrod".spec_bytes() {
        spec_from_hex("#DAA520".spec_bytes())
    } else if name.spec_bytes() == "gray".spec_bytes() {
        spec_from_hex("#808080".spec_bytes())
    } else if name.spec_bytes() == "grey".spec_bytes() {
        spec_from_hex("#808080".spec_bytes())
    } else if name.spec_bytes() == "green".spec_bytes() {
        spec_from_hex("#008000".spec_bytes())
    } else if name.spec_bytes() == "greenyellow".spec_bytes() {
        spec_from_hex("#ADFF2F".spec_bytes())
    } else if name.spec_bytes() == "honeydew".spec_bytes() {
        spec_from_hex("#F0FFF0".spec_bytes())
    } else if name.spec_bytes() == "hotpink".spec_bytes() {
        spec_from_hex("#FF69B4".spec_bytes())
    } else if name.spec_bytes() == "indianred".spec_bytes() {
        spec_from_hex("#CD5C5C".spec_bytes())
    } else if name.spec_bytes() == "indigo".spec_bytes() {
        spec_from_hex("#4B0082".spec_bytes())
    } else if name.spec_bytes() == "ivory".spec_bytes() {
        spec_from_hex("#FFFFF0".spec_bytes())
    } else if name.spec_bytes() == "khaki".spec_bytes() {
        spec_from_hex("#F0E68C".spec_bytes())
    } else if name.spec_bytes() == "lavender".spec_bytes() {
        spec_from_hex("#E6E6FA".spec_bytes())
    } else if name.spec_bytes() == "lavenderblush".spec_bytes() {
        spec_from_hex("#FFF0F5".spec_bytes())
    } else if name.spec_bytes() == "lawngreen".spec_bytes() {
        spec_from_hex("#7CFC00".spec_bytes())
    } else if name.spec_bytes() == "lemonchiffon".spec_bytes() {
        spec_from_hex("#FFFACD".spec_bytes())
    } else if name.spec_bytes() == "lightblue".spec_bytes() {
        spec_from_hex("#ADD8E6".spec_bytes())
    } else if name.spec_bytes() == "lightcoral".spec_bytes() {
        spec_from_hex("#F08080".spec_bytes())
    } else if name.spec_bytes() == "lightcyan".spec_bytes() {
        spec_from_hex("#E0FFFF".spec_bytes())
    } else if name.spec_bytes() == "lightgoldenrodyellow".spec_bytes() {
        spec_from_hex("#FAFAD2".spec_bytes())
    } else if name.spec_bytes() == "lightgray".spec_bytes() {
        spec_from_hex("#D3D3D3".spec_bytes())
    } else if name.spec_bytes() == "lightgrey".spec_bytes() {
        spec_from_hex("#D3D3D3".spec_bytes())
    } else if name.spec_bytes() == "lightgreen".spec_bytes() {
        spec_from_hex("#90EE90".spec_bytes())
    } else if name.spec_bytes() == "lightpink".spec_bytes() {
        spec_from_hex("#FFB6C1".spec_bytes())
    } else if name.spec_bytes() == "lightsalmon".spec_bytes() {
        spec_from_hex("#FFA07A".spec_bytes())
    } else if name.spec_bytes() == "lightseagreen".spec_bytes() {
        spec_from_hex("#20B2AA".spec_bytes())
    } else if name.spec_bytes() == "lightskyblue".spec_bytes() {
        spec_from_hex("#87CEFA".spec_bytes())
    } else if name.spec_bytes() == "lightslategray".spec_bytes() {
        spec_from_hex("#778899".spec_bytes())
    } else if name.spec_bytes() == "lightslategrey".spec_bytes() {
        spec_from_hex("#778899".spec_bytes())
    } else if name.spec_bytes() == "lightsteelblue".spec_bytes() {
        spec_from_hex("#B0C4DE".spec_bytes())
    } else if name.spec_bytes() == "lightyellow".spec_bytes() {
        spec_from_hex("#FFFFE0".spec_bytes())
    } else if name.spec_bytes() == "lime".spec_bytes() {
        spec_from_hex("#00FF00".spec_bytes())
    } else if name.spec_bytes() == "limegreen".spec_bytes() {
        spec_from_hex("#32CD32".spec_bytes())
    } else if name.spec_bytes() == "linen".spec_bytes() {
        spec_from_hex("#FAF0E6".spec_bytes())
    } else if name.spec_bytes() == "magenta".spec_bytes() {
        spec_from_hex("#FF00FF".spec_bytes())
    } else if name.spec_bytes() == "maroon".spec_bytes() {
        spec_from_hex("#800000".spec_bytes())
    } else if name.spec_bytes() == "mediumaquamarine".spec_bytes() {
        spec_from_hex("#66CDAA".spec_bytes())
    } else if name.spec_bytes() == "mediumblue".spec_bytes() {
        spec_from_hex("#0000CD".spec_bytes())
    } else if name.spec_bytes() == "mediumorchid".spec_bytes() {
        spec_from_hex("#BA55D3".spec_bytes())
    } else if name.spec_bytes() == "mediumpurple".spec_bytes() {
        spec_from_hex("#9370DB".spec_bytes())
    } else if name.spec_bytes() == "mediumseagreen".spec_bytes() {
        spec_from_hex("#3CB371".spec_bytes())
    } else if name.spec_bytes() == "mediumslateblue".spec_bytes() {
        spec_from_hex("#7B68EE".spec_bytes())
    } else if name.spec_bytes() == "mediumspringgreen".spec_bytes() {
        spec_from_hex("#00FA9A".spec_bytes())
    } else if name.spec_bytes() == "mediumturquoise".spec_bytes() {
        spec_from_hex("#48D1CC".spec_bytes())
    } else if name.spec_bytes() == "mediumvioletred".spec_bytes() {
        spec_from_hex("#C71585".spec_bytes())
    } else if name.spec_bytes() == "midnightblue".spec_bytes() {
        spec_from_hex("#191970".spec_bytes())
    } else if name.spec_bytes() == "mintcream".spec_bytes() {
        spec_from_hex("#F5FFFA".spec_bytes())
    } else if name.spec_bytes() == "mistyrose".spec_bytes() {
        spec_from_hex("#FFE4E1".spec_bytes())
    } else if name.spec_bytes() == "moccasin".spec_bytes() {
        spec_from_hex("#FFE4B5".spec_bytes())
    } else if name.spec_bytes() == "navajowhite".spec_bytes() {
        spec_from_hex("#FFDEAD".spec_bytes())
    } else if name.spec_bytes() == "navy".spec_bytes() {
        spec_from_hex("#000080".spec_bytes())
    } else if name.spec_bytes() == "oldlace".spec_bytes() {
        spec_from_hex("#FDF5E6".spec_bytes())
    } else if name.spec_bytes() == "olive".spec_bytes() {
        spec_from_hex("#808000".spec_bytes())
    } else if name.spec_bytes() == "olivedrab".spec_bytes() {
        spec_from_hex("#6B8E23".spec_bytes())
    } else if name.spec_bytes() == "orange".spec_bytes() {
        spec_from_hex("#FFA500".spec_bytes())
    } else if name.spec_bytes() == "orangered".spec_bytes() {
        spec_from_hex("#FF4500".spec_bytes())
    } else if name.spec_bytes() == "orchid".spec_bytes() {
        spec_from_hex("#DA70D6".spec_bytes())
    } else if name.spec_bytes() == "palegoldenrod".spec_bytes() {
        spec_from_hex("#EEE8AA".spec_bytes())
    } else if name.spec_bytes() == "palegreen".spec_bytes() {
        spec_from_hex("#98FB98".spec_bytes())
    } else if name.spec_bytes() == "paleturquoise".spec_bytes() {
        spec_from_hex("#AFEEEE".spec_bytes())
    } else if name.spec_bytes() == "palevioletred".spec_bytes() {
        spec_from_hex("#DB7093".spec_bytes())
    } else if name.spec_bytes() == "papayawhip".spec_bytes() {
        spec_from_hex("#FFEFD5".spec_bytes())
    } else if name.spec_bytes() == "peachpuff".spec_bytes() {
        spec_from_hex("#FFDAB9".spec_bytes())
    } else if name.spec_bytes() == "peru".spec_bytes() {
        spec_from_hex("#CD853F".spec_bytes())
    } else if name.spec_bytes() == "pink".spec_bytes() {
        spec_from_hex("#FFC0CB".spec_bytes())
    } else if name.spec_bytes() == "plum".spec_bytes() {
        spec_from_hex("#DDA0DD".spec_bytes())
    } else if name.spec_bytes() == "powderblue".spec_bytes() {
        spec_from_hex("#B0E0E6".spec_bytes())
    } else if name.spec_bytes() == "purple".spec_bytes() {
        spec_from_hex("#800080".spec_bytes())
    } else if name.spec_bytes() == "rebeccapurple".spec_bytes() {
        spec_from_hex("#663399".spec_bytes())
    } else if name.spec_bytes() == "red".spec_bytes() {
        spec_from_hex("#FF0000".spec_bytes())
    } else if name.spec_bytes() == "rosybrown".spec_bytes() {
        spec_from_hex("#BC8F8F".spec_bytes())
    } else if name.spec_bytes() == "royalblue".spec_bytes() {
        spec_from_hex("#4169E1".spec_bytes())
    } else if name.spec_bytes() == "saddlebrown".spec_bytes() {
        spec_from_hex("#8B4513".spec_bytes())
    } else if name.spec_bytes() == "salmon".spec_bytes() {
        spec_from_hex("#FA8072".spec_bytes())
    } else if name.spec_bytes() == "sandybrown".spec_bytes() {
        spec_from_hex("#F4A460".spec_bytes())
    } else if name.spec_bytes() == "seagreen".spec_bytes() {
        spec_from_hex("#2E8B57".spec_bytes())
    } else if name.spec_bytes() == "seashell".spec_bytes() {
        spec_from_hex("#FFF5EE".spec_bytes())
    } else if name.spec_bytes() == "sienna".spec_bytes() {
        spec_from_hex("#A0522D".spec_bytes())
    } else if name.spec_bytes() == "silver".spec_bytes() {
        spec_from_hex("#C0C0C0".spec_bytes())
    } else if name.spec_bytes() == "skyblue".spec_bytes() {
        spec_from_hex("#87CEEB".spec_bytes())
    } else if name.spec_bytes() == "slateblue".spec_bytes() {
        spec_from_hex("#6A5ACD".spec_bytes())
    } else if name.spec_bytes() == "slategray".spec_bytes() {
        spec_from_hex("#708090".spec_bytes())
    } else if name.spec_bytes() == "slategrey".spec_bytes() {
        spec_from_hex("#708090".spec_bytes())
    } else if name.spec_bytes() == "snow".spec_bytes() {
        spec_from_hex("#FFFAFA".spec_bytes())
    } else if name.spec_bytes() == "springgreen".spec_bytes() {
        spec_from_hex("#00FF7F".spec_bytes())
    } else if name.spec_bytes() == "steelblue".spec_bytes() {
        spec_from_hex("#4682B4".spec_bytes())
    } else if name.spec_bytes() == "tan".spec_bytes() {
        spec_from_hex("#D2B48C".spec_bytes())
    } else if name.spec_bytes() == "teal".spec_bytes() {
        spec_from_hex("#008080".spec_bytes())
    } else if name.spec_bytes() == "thistle".spec_bytes() {
        spec_from_hex("#D8BFD8".spec_bytes())
    } else if name.spec_bytes() == "tomato".spec_bytes() {
        spec_from_hex("#FF6347".spec_bytes())
    } else if name.spec_bytes() == "turquoise".spec_bytes() {
        spec_from_hex("#40E0D0".spec_bytes())
    } else if name.spec_bytes() == "violet".spec_bytes() {
        spec_from_hex("#EE82EE".spec_bytes())
    } else if name.spec_bytes() == "wheat".spec_bytes() {
        spec_from_hex("#F5DEB3".spec_bytes())
    } else if name.spec_bytes() == "white".spec_bytes() {
        spec_from_hex("#FFFFFF".spec_bytes())
    } else if name.spec_bytes() == "whitesmoke".spec_bytes() {
        spec_from_hex("#F5F5F5".spec_bytes())
    } else if name.spec_bytes() == "yellow".spec_bytes() {
        spec_from_hex("#FFFF00".spec_bytes())
    } else if name.spec_bytes() == "yellowgreen".spec_bytes() {
        spec_from_hex("#9ACD32".spec_bytes())
    } else {
        spec_from_hex(name.spec_bytes())
    }
}

/// Looks a color string up in the table of known names, falling through to
/// the hex parser when no name matches.
fn from_known_name(name: &str) -> (r: Option<Color>)
    ensures
        r == spec_from_known_name(name),
{
    if str_eq(name, "aliceblue") {
        from_hex("#F0F8FF")
    } else if str_eq(name, "antiquewhite") {
        from_hex("#FAEBD7")
    } else if str_eq(name, "aqua") {
        from_hex("#00FFFF")
    } else if str_eq(name, "aquamarine") {
        from_hex("#7FFFD4")
    } else if str_eq(name, "azure") {
        from_hex("#F0FFFF")
    } else if str_eq(name, "beige") {
        from_hex("#F5F5DC")
    } else if str_eq(name, "bisque") {
        from_hex("#FFE4C4")
    } else if str_eq(name, "black") {
        from_hex("#000000")
    } else if str_eq(name, "blanchedalmond") {
        from_hex("#FFEBCD")
    } else if str_eq(name, "blue") {
        from_hex("#0000FF")
    } else if str_eq(name, "blueviolet") {
        from_hex("#8A2BE2")
    } else if str_eq(name, "brown") {
        from_hex("#A52A2A")
    } else if str_eq(name, "burlywood") {
        from_hex("#DEB887")
    } else if str_eq(name, "cadetblue") {
        from_hex("#5F9EA0")
    } else if str_eq(name, "chartreuse") {
        from_hex("#7FFF00")
    } else if str_eq(name, "chocolate") {
        from_hex("#D2691E")
    } else if str_eq(name, "coral") {
        from_hex("#FF7F50")
    } else if str_eq(name, "cornflowerblue") {
        from_hex("#6495ED")
    } else if str_eq(name, "cornsilk") {
        from_hex("#FFF8DC")
    } else if str_eq(name, "crimson") {
        from_hex("#DC143C")
    } else if str_eq(name, "cyan") {
        from_hex("#00FFFF")
    } else if str_eq(name, "darkblue") {
        from_hex("#00008B")
    } else if str_eq(name, "darkcyan") {
        from_hex("#008B8B")
    } else if str_eq(name, "darkgoldenrod") {
        from_hex("#B8860B")
    } else if str_eq(name, "darkgray") {
        from_hex("#A9A9A9")
    } else if str_eq(name, "darkgrey") {
        from_hex("#A9A9A9")
    } else if str_eq(name, "darkgreen") {
        from_hex("#006400")
    } else if str_eq(name, "darkkhaki") {
        from_hex("#BDB76B")
    } else if str_eq(name, "darkmagenta") {
        from_hex("#8B008B")
    } else if str_eq(name, "darkolivegreen") {
        from_hex("#556B2F")
    } else if str_eq(name, "darkorange") {
        from_hex("#FF8C00")
    } else if str_eq(name, "darkorchid") {
        from_hex("#9932CC")
    } else if str_eq(name, "darkred") {
        from_hex("#8B0000")
    } else if str_eq(name, "darksalmon") {
        from_hex("#E9967A")
    } else if str_eq(name, "darkseagreen") {
        from_hex("#8FBC8F")
    } else if str_eq(name, "darkslateblue") {
        from_hex("#483D8B")
    } else if str_eq(name, "darkslategray") {
        from_hex("#2F4F4F")
    } else if str_eq(name, "darkslategrey") {
        from_hex("#2F4F4F")
    } else if str_eq(name, "darkturquoise") {
        from_hex("#00CED1")
    } else if str_eq(name, "darkviolet") {
        from_hex("#9400D3")
    } else if str_eq(name, "deeppink") {
        from_hex("#FF1493")
    } else if str_eq(name, "deepskyblue") {
        from_hex("#00BFFF")
    } else if str_eq(name, "dimgray") {
        from_hex("#696969")
    } else if str_eq(name, "dimgrey") {
        from_hex("#696969")
    } else if str_eq(name, "dodgerblue") {
        from_hex("#1E90FF")
    } else if str_eq(name, "firebrick") {
        from_hex("#B22222")
    } else if str_eq(name, "floralwhite") {
        from_hex("#FFFAF0")
    } else if str_eq(name, "forestgreen") {
        from_hex("#228B22")
    } else if str_eq(name, "fuchsia") {
        from_hex("#FF00FF")
    } else if str_eq(name, "gainsboro") {
        from_hex("#DCDCDC")
    } else if str_eq(name, "ghostwhite") {
        from_hex("#F8F8FF")
    } else if str_eq(name, "gold") {
        from_hex("#FFD700")
    } else if str_eq(name, "goldenrod") {
        from_hex("#DAA520")
    } else if str_eq(name, "gray") {
        from_hex("#808080")
    } else if str_eq(name, "grey") {
        from_hex("#808080")
    } else if str_eq(name, "green") {
        from_hex("#008000")
    } else if str_eq(name, "greenyellow") {
        from_hex("#ADFF2F")
    } else if str_eq(name, "honeydew") {
        from_hex("#F0FFF0")
    } else if str_eq(name, "hotpink") {
        from_hex("#FF69B4")
    } else if str_eq(name, "indianred") {
        from_hex("#CD5C5C")
    } else if str_eq(name, "indigo") {
        from_hex("#4B0082")
    } else if str_eq(name, "ivory") {
        from_hex("#FFFFF0")
    } else if str_eq(name, "khaki") {
        from_hex("#F0E68C")
    } else if str_eq(name, "lavender") {
        from_hex("#E6E6FA")
    } else if str_eq(name, "lavenderblush") {
        from_hex("#FFF0F5")
    } else if str_eq(name, "lawngreen") {
        from_hex("#7CFC00")
    } else if str_eq(name, "lemonchiffon") {
        from_hex("#FFFACD")
    } else if str_eq(name, "lightblue") {
        from_hex("#ADD8E6")
    } else if str_eq(name, "lightcoral") {
        from_hex("#F08080")
    } else if str_eq(name, "lightcyan") {
        from_hex("#E0FFFF")
    } else if str_eq(name, "lightgoldenrodyellow") {
        from_hex("#FAFAD2")
    } else if str_eq(name, "lightgray") {
        from_hex("#D3D3D3")
    } else if str_eq(name, "lightgrey") {
        from_hex("#D3D3D3")
    } else if str_eq(name, "lightgreen") {
        from_hex("#90EE90")
    } else if str_eq(name, "lightpink") {
        from_hex("#FFB6C1")
    } else if str_eq(name, "lightsalmon") {
        from_hex("#FFA07A")
    } else if str_eq(name, "lightseagreen") {
        from_hex("#20B2AA")
    } else if str_eq(name, "lightskyblue") {
        from_hex("#87CEFA")
    } else if str_eq(name, "lightslategray") {
        from_hex("#778899")
    } else if str_eq(name, "lightslategrey") {
        from_hex("#778899")
    } else if str_eq(name, "lightsteelblue") {
        from_hex("#B0C4DE")
    } else if str_eq(name, "lightyellow") {
        from_hex("#FFFFE0")
    } else if str_eq(name, "lime") {
        from_hex("#00FF00")
    } else if str_eq(name, "limegreen") {
        from_hex("#32CD32")
    } else if str_eq(name, "linen") {
        from_hex("#FAF0E6")
    } else if str_eq(name, "magenta") {
        from_hex("#FF00FF")
    } else if str_eq(name, "maroon") {
        from_hex("#800000")
    } else if str_eq(name, "mediumaquamarine") {
        from_hex("#66CDAA")
    } else if str_eq(name, "mediumblue") {
        from_hex("#0000CD")
    } else if str_eq(name, "mediumorchid") {
        from_hex("#BA55D3")
    } else if str_eq(name, "mediumpurple") {
        from_hex("#9370DB")
    } else if str_eq(name, "mediumseagreen") {
        from_hex("#3CB371")
    } else if str_eq(name, "mediumslateblue") {
        from_hex("#7B68EE")
    } else if str_eq(name, "mediumspringgreen") {
        from_hex("#00FA9A")
    } else if str_eq(name, "mediumturquoise") {
        from_hex("#48D1CC")
    } else if str_eq(name, "mediumvioletred") {
        from_hex("#C71585")
    } else if str_eq(name, "midnightblue") {
        from_hex("#191970")
    } else if str_eq(name, "mintcream") {
        from_hex("#F5FFFA")
    } else if str_eq(name, "mistyrose") {
        from_hex("#FFE4E1")
    } else if str_eq(name, "moccasin") {
        from_hex("#FFE4B5")
    } else if str_eq(name, "navajowhite") {
        from_hex("#FFDEAD")
    } else if str_eq(name, "navy") {
        from_hex("#000080")
    } else if str_eq(name, "oldlace") {
        from_hex("#FDF5E6")
    } else if str_eq(name, "olive") {
        from_hex("#808000")
    } else if str_eq(name, "olivedrab") {
        from_hex("#6B8E23")
    } else if str_eq(name, "orange") {
        from_hex("#FFA500")
    } else if str_eq(name, "orangered") {
        from_hex("#FF4500")
    } else if str_eq(name, "orchid") {
        from_hex("#DA70D6")
    } else if str_eq(name, "palegoldenrod") {
        from_hex("#EEE8AA")
    } else if str_eq(name, "palegreen") {
        from_hex("#98FB98")
    } else if str_eq(name, "paleturquoise") {
        from_hex("#AFEEEE")
    } else if str_eq(name, "palevioletred") {
        from_hex("#DB7093")
    } else if str_eq(name, "papayawhip") {
        from_hex("#FFEFD5")
    } else if str_eq(name, "peachpuff") {
        from_hex("#FFDAB9")
    } else if str_eq(name, "peru") {
        from_hex("#CD853F")
    } else if str_eq(name, "pink") {
        from_hex("#FFC0CB")
    } else if str_eq(name, "plum") {
        from_hex("#DDA0DD")
    } else if str_eq(name, "powderblue") {
        from_hex("#B0E0E6")
    } else if str_eq(name, "purple") {
        from_hex("#800080")
    } else if str_eq(name, "rebeccapurple") {
        from_hex("#663399")
    } else if str_eq(name, "red") {
        from_hex("#FF0000")
    } else if str_eq(name, "rosybrown") {
        from_hex("#BC8F8F")
    } else if str_eq(name, "royalblue") {
        from_hex("#4169E1")
    } else if str_eq(name, "saddlebrown") {
        from_hex("#8B4513")
    } else if str_eq(name, "salmon") {
        from_hex("#FA8072")
    } else if str_eq(name, "sandybrown") {
        from_hex("#F4A460")
    } else if str_eq(name, "seagreen") {
        from_hex("#2E8B57")
    } else if str_eq(name, "seashell") {
        from_hex("#FFF5EE")
    } else if str_eq(name, "sienna") {
        from_hex("#A0522D")
    } else if str_eq(name, "silver") {
        from_hex("#C0C0C0")
    } else if str_eq(name, "skyblue") {
        from_hex("#87CEEB")
    } else if str_eq(name, "slateblue") {
        from_hex("#6A5ACD")
    } else if str_eq(name, "slategray") {
        from_hex("#708090")
    } else if str_eq(name, "slategrey") {
        from_hex("#708090")
    } else if str_eq(name, "snow") {
        from_hex("#FFFAFA")
    } else if str_eq(name, "springgreen") {
        from_hex("#00FF7F")
    } else if str_eq(name, "steelblue") {
        from_hex("#4682B4")
    } else if str_eq(name, "tan") {
        from_hex("#D2B48C")
    } else if str_eq(name, "teal") {
        from_hex("#008080")
    } else if str_eq(name, "thistle") {
        from_hex("#D8BFD8")
    } else if str_eq(name, "tomato") {
        from_hex("#FF6347")
    } else if str_eq(name, "turquoise") {
        from_hex("#40E0D0")
    } else if str_eq(name, "violet") {
        from_hex("#EE82EE")
    } else if str_eq(name, "wheat") {
        from_hex("#F5DEB3")
    } else if str_eq(name, "white") {
        from_hex("#FFFFFF")
    } else if str_eq(name, "whitesmoke") {
        from_hex("#F5F5F5")
    } else if str_eq(name, "yellow") {
        from_hex("#FFFF00")
    } else if str_eq(name, "yellowgreen") {
        from_hex("#9ACD32")
    } else {
        from_hex(name)
    }
}

} // verus!
