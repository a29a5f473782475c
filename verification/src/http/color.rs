//! Colors: their text, how it is read, and which of them the service accepts.

use vstd::prelude::*;
use crate::http::number::Binary32;
use crate::http::text::{
    after, before, begins, chars_of, cut, decimal, digit_value, lemma_absent, lemma_cut,
    lemma_decimal_read_back, occurs, push_decimal, read_u16, read_u8, same, starts_with, u16_read,
    u8_read,
};

verus! {

/// Specifies the desired color setting of a light.
///
/// HSBK is the preferred method of specifying colors (RGB represents color poorly); as such,
/// `Hue`, `Saturation`, `Brightness`, and `Kelvin` are among the more useful variants here.
///
/// A value can be built out of the service's ranges: they are looked at by
/// [`Color::validate`] and nowhere else.
#[derive(Clone, Debug, PartialEq)]
pub enum Color {
    /// Sets the hue and saturation components necessary to change the color to red, leaving
    /// brightness untouched.
    Red,
    /// Sets the hue and saturation components necessary to change the color to orange, leaving
    /// brightness untouched.
    Orange,
    /// Sets the hue and saturation components necessary to change the color to yellow, leaving
    /// brightness untouched.
    Yellow,
    /// Sets the hue and saturation components necessary to change the color to green, leaving
    /// brightness untouched.
    Green,
    /// Sets the hue and saturation components necessary to change the color to blue, leaving
    /// brightness untouched.
    Blue,
    /// Sets the hue and saturation components necessary to change the color to purple, leaving
    /// brightness untouched.
    Purple,
    /// Sets the hue and saturation components necessary to change the color to pink, leaving
    /// brightness untouched.
    Pink,
    /// Sets the hue and saturation components necessary to change the color to white, leaving
    /// brightness untouched.
    White,
    /// Sets the hue, leaving all else untouched.
    ///
    /// The hue should be between 0 and 360.
    Hue(u16),
    /// Sets the saturation, leaving all else untouched.
    ///
    /// The saturation should be between 0 and 1.
    Saturation(Binary32),
    /// Sets the brightness, leaving all else untouched.
    ///
    /// The brightness should be between 0 and 1.
    Brightness(Binary32),
    /// Sets the temperature to the given value and saturation to 0, leaving all else untouched.
    ///
    /// The temperature should be between 1500 and 9000.
    Kelvin(u16),
    /// Sets the color to an RGB color using the given numeric components.
    ///
    /// It is preferred to use this over `RgbStr` where possible.
    Rgb([u8; 3]),
    /// Sets the color to an RGB color using the given specifier string.
    ///
    /// Strings may be of the form `#ff0000` or `ff0000`; outputs will be normalized to the former.
    RgbStr(String),
    /// Uses a custom specifier string.
    ///
    /// This is an unchecked escape hatch for keywords that the service reads but does not
    /// document, such as "cyan": the string is written as it is, no text is ever read as a
    /// custom color, and validation accepts every one of them.
    Custom(String),
}

/// What a [`Color`] is to the contracts.
pub enum ColorView {
    Red,
    Orange,
    Yellow,
    Green,
    Blue,
    Purple,
    Pink,
    White,
    Hue(u16),
    Saturation(Binary32),
    Brightness(Binary32),
    Kelvin(u16),
    Rgb(u8, u8, u8),
    RgbStr(Seq<char>),
    Custom(Seq<char>),
}

impl View for Color {
    type V = ColorView;

    open spec fn view(&self) -> ColorView {
        match self {
            Color::Red => ColorView::Red,
            Color::Orange => ColorView::Orange,
            Color::Yellow => ColorView::Yellow,
            Color::Green => ColorView::Green,
            Color::Blue => ColorView::Blue,
            Color::Purple => ColorView::Purple,
            Color::Pink => ColorView::Pink,
            Color::White => ColorView::White,
            Color::Hue(h) => ColorView::Hue(*h),
            Color::Saturation(s) => ColorView::Saturation(*s),
            Color::Brightness(b) => ColorView::Brightness(*b),
            Color::Kelvin(k) => ColorView::Kelvin(*k),
            Color::Rgb(rgb) => ColorView::Rgb(rgb[0], rgb[1], rgb[2]),
            Color::RgbStr(s) => ColorView::RgbStr(s@),
            Color::Custom(s) => ColorView::Custom(s@),
        }
    }
}

/// `ParseFloatError` of std: why a text was refused as a number. Nothing of
/// what it holds is known to the contracts.
#[verifier::external_type_specification]
#[verifier::external_body]
pub struct ExParseFloatError(std::num::ParseFloatError);

/// `Clone::clone` of std on its `ParseFloatError`: a copy of the error.
pub assume_specification[ <std::num::ParseFloatError as Clone>::clone ](
    e: &std::num::ParseFloatError,
) -> (r: std::num::ParseFloatError)
    ensures
        r == *e,
;

/// Represents an error encountered while reading a color from text.
#[derive(Clone, Debug, PartialEq)]
pub enum ColorParseError {
    /// No hue was given.
    NoHue,
    /// The hue could not be parsed as an integer.
    NonNumericHue(std::num::ParseIntError),
    /// No saturation was given.
    NoSaturation,
    /// The saturation could not be parsed as a number.
    NonNumericSaturation(std::num::ParseFloatError),
    /// No brightness was given.
    NoBrightness,
    /// The brightness could not be parsed as a number.
    NonNumericBrightness(std::num::ParseFloatError),
    /// No color temperature was given.
    NoKelvin,
    /// The color temperature could not be parsed as an integer.
    NonNumericKelvin(std::num::ParseIntError),
    /// No red component was given.
    NoRed,
    /// The red component could not be parsed as an integer.
    NonNumericRed(std::num::ParseIntError),
    /// No green component was given.
    NoGreen,
    /// The green component could not be parsed as an integer.
    NonNumericGreen(std::num::ParseIntError),
    /// No blue component was given.
    NoBlue,
    /// The blue component could not be parsed as an integer.
    NonNumericBlue(std::num::ParseIntError),
    /// The string is too short to be an RGB string and was not recognized as a keyword.
    ShortString,
    /// The string is too long to be an RGB string and was not recognized as a keyword.
    LongString,
}

/// What the text of a color decomposes into: a color, or the text of a
/// number that has yet to be read to give one.
#[derive(Clone, Debug, PartialEq)]
pub enum Draft {
    /// The text was that of this color.
    Color(Color),
    /// The text asks for the saturation that this text writes.
    Saturation(String),
    /// The text asks for the brightness that this text writes.
    Brightness(String),
}

/// What a [`Draft`] is to the contracts.
pub enum DraftView {
    Color(ColorView),
    Saturation(Seq<char>),
    Brightness(Seq<char>),
}

impl View for Draft {
    type V = DraftView;

    open spec fn view(&self) -> DraftView {
        match self {
            Draft::Color(c) => DraftView::Color(c@),
            Draft::Saturation(t) => DraftView::Saturation(t@),
            Draft::Brightness(t) => DraftView::Brightness(t@),
        }
    }
}

/// What follows the first `n` characters of `s`.
pub open spec fn rest(s: Seq<char>, n: int) -> Seq<char> {
    s.subrange(n, s.len() as int)
}

/// What the text read after `hue:` gives.
pub open spec fn scanned_hue(t: Seq<char>) -> Result<DraftView, ColorParseError> {
    if t.len() == 0 {
        Err(ColorParseError::NoHue)
    } else {
        match u16_read(t) {
            Ok(h) => Ok(DraftView::Color(ColorView::Hue(h))),
            Err(e) => Err(ColorParseError::NonNumericHue(e)),
        }
    }
}

/// What the text read after `kelvin:` gives.
pub open spec fn scanned_kelvin(t: Seq<char>) -> Result<DraftView, ColorParseError> {
    if t.len() == 0 {
        Err(ColorParseError::NoKelvin)
    } else {
        match u16_read(t) {
            Ok(k) => Ok(DraftView::Color(ColorView::Kelvin(k))),
            Err(e) => Err(ColorParseError::NonNumericKelvin(e)),
        }
    }
}

/// What the text read after `rgb:` gives: red stands before the first
/// comma, green between the first and the second, blue after the second. A
/// component that is missing or empty is reported before any is read as a
/// number, red before green before blue both times.
pub open spec fn scanned_rgb(t: Seq<char>) -> Result<DraftView, ColorParseError> {
    let red = before(t, ',');
    let green = before(after(t, ','), ',');
    let blue = after(after(t, ','), ',');
    if red.len() == 0 {
        Err(ColorParseError::NoRed)
    } else if green.len() == 0 {
        Err(ColorParseError::NoGreen)
    } else if blue.len() == 0 {
        Err(ColorParseError::NoBlue)
    } else {
        match u8_read(red) {
            Err(e) => Err(ColorParseError::NonNumericRed(e)),
            Ok(r) => match u8_read(green) {
                Err(e) => Err(ColorParseError::NonNumericGreen(e)),
                Ok(g) => match u8_read(blue) {
                    Err(e) => Err(ColorParseError::NonNumericBlue(e)),
                    Ok(b) => Ok(DraftView::Color(ColorView::Rgb(r, g, b))),
                },
            },
        }
    }
}

/// What a text that is no keyword and has no known prefix gives: an RGB
/// string when it has six characters, or seven with a leading `#`.
pub open spec fn scanned_hex(s: Seq<char>) -> Result<DraftView, ColorParseError> {
    let wanted: int = if s.len() > 0 && s[0] == '#' {
        7
    } else {
        6
    };
    if s.len() < wanted {
        Err(ColorParseError::ShortString)
    } else if s.len() == wanted {
        Ok(DraftView::Color(ColorView::RgbStr(s)))
    } else {
        Err(ColorParseError::LongString)
    }
}

/// What the text of a color decomposes into. The eight keywords come first,
/// then the five prefixes, and what is left is taken for an RGB string.
pub open spec fn scanned(s: Seq<char>) -> Result<DraftView, ColorParseError> {
    if s == "red"@ {
        Ok(DraftView::Color(ColorView::Red))
    } else if s == "orange"@ {
        Ok(DraftView::Color(ColorView::Orange))
    } else if s == "yellow"@ {
        Ok(DraftView::Color(ColorView::Yellow))
    } else if s == "green"@ {
        Ok(DraftView::Color(ColorView::Green))
    } else if s == "blue"@ {
        Ok(DraftView::Color(ColorView::Blue))
    } else if s == "purple"@ {
        Ok(DraftView::Color(ColorView::Purple))
    } else if s == "pink"@ {
        Ok(DraftView::Color(ColorView::Pink))
    } else if s == "white"@ {
        Ok(DraftView::Color(ColorView::White))
    } else if begins(s, "hue:"@) {
        scanned_hue(rest(s, 4))
    } else if begins(s, "saturation:"@) {
        if rest(s, 11).len() == 0 {
            Err(ColorParseError::NoSaturation)
        } else {
            Ok(DraftView::Saturation(rest(s, 11)))
        }
    } else if begins(s, "brightness:"@) {
        if rest(s, 11).len() == 0 {
            Err(ColorParseError::NoBrightness)
        } else {
            Ok(DraftView::Brightness(rest(s, 11)))
        }
    } else if begins(s, "kelvin:"@) {
        scanned_kelvin(rest(s, 7))
    } else if begins(s, "rgb:"@) {
        scanned_rgb(rest(s, 4))
    } else {
        scanned_hex(s)
    }
}

/// Whether `r` is the outcome `expected`, the draft taken by its view.
pub open spec fn scans_as(
    r: Result<Draft, ColorParseError>,
    expected: Result<DraftView, ColorParseError>,
) -> bool {
    match expected {
        Ok(v) => r is Ok && r->Ok_0@ == v,
        Err(e) => r == Err::<Draft, ColorParseError>(e),
    }
}

fn scan_hue(t: &str) -> (r: Result<Draft, ColorParseError>)
    ensures
        scans_as(r, scanned_hue(t@)),
{
    if t.unicode_len() == 0 {
        return Err(ColorParseError::NoHue);
    }
    match read_u16(t) {
        Ok(h) => Ok(Draft::Color(Color::Hue(h))),
        Err(e) => Err(ColorParseError::NonNumericHue(e)),
    }
}

fn scan_kelvin(t: &str) -> (r: Result<Draft, ColorParseError>)
    ensures
        scans_as(r, scanned_kelvin(t@)),
{
    if t.unicode_len() == 0 {
        return Err(ColorParseError::NoKelvin);
    }
    match read_u16(t) {
        Ok(k) => Ok(Draft::Color(Color::Kelvin(k))),
        Err(e) => Err(ColorParseError::NonNumericKelvin(e)),
    }
}

fn scan_rgb(t: &str) -> (r: Result<Draft, ColorParseError>)
    ensures
        scans_as(r, scanned_rgb(t@)),
{
    let (red, tail, _) = cut(t, ',');
    let (green, blue, _) = cut(tail, ',');
    if red.unicode_len() == 0 {
        return Err(ColorParseError::NoRed);
    }
    if green.unicode_len() == 0 {
        return Err(ColorParseError::NoGreen);
    }
    if blue.unicode_len() == 0 {
        return Err(ColorParseError::NoBlue);
    }
    match read_u8(red) {
        Err(e) => Err(ColorParseError::NonNumericRed(e)),
        Ok(r) => match read_u8(green) {
            Err(e) => Err(ColorParseError::NonNumericGreen(e)),
            Ok(g) => match read_u8(blue) {
                Err(e) => Err(ColorParseError::NonNumericBlue(e)),
                Ok(b) => Ok(Draft::Color(Color::Rgb([r, g, b]))),
            },
        },
    }
}

fn scan_hex(s: &str, cs: &Vec<char>) -> (r: Result<Draft, ColorParseError>)
    requires
        cs@ == s@,
    ensures
        scans_as(r, scanned_hex(s@)),
{
    let n = cs.len();
    let wanted: usize = if n > 0 && cs[0] == '#' {
        7
    } else {
        6
    };
    if n < wanted {
        Err(ColorParseError::ShortString)
    } else if n == wanted {
        Ok(Draft::Color(Color::RgbStr(s.to_owned())))
    } else {
        Err(ColorParseError::LongString)
    }
}

impl Color {
    /// Decomposes the text of a color. What comes back is the color, or, for
    /// a saturation or a brightness, the text of its number: reading that is
    /// left to the caller, who hands the outcome to [`Color::saturation`] or
    /// [`Color::brightness`].
    ///
    /// Custom colors cannot be made with this method; use `Color::Custom(s)` instead.
    pub fn scan(s: &str) -> (r: Result<Draft, ColorParseError>)
        ensures
            scans_as(r, scanned(s@)),
    {
        proof {
            reveal_strlit("hue:");
            reveal_strlit("saturation:");
            reveal_strlit("brightness:");
            reveal_strlit("kelvin:");
            reveal_strlit("rgb:");
        }
        if same(s, "red") {
            return Ok(Draft::Color(Color::Red));
        }
        if same(s, "orange") {
            return Ok(Draft::Color(Color::Orange));
        }
        if same(s, "yellow") {
            return Ok(Draft::Color(Color::Yellow));
        }
        if same(s, "green") {
            return Ok(Draft::Color(Color::Green));
        }
        if same(s, "blue") {
            return Ok(Draft::Color(Color::Blue));
        }
        if same(s, "purple") {
            return Ok(Draft::Color(Color::Purple));
        }
        if same(s, "pink") {
            return Ok(Draft::Color(Color::Pink));
        }
        if same(s, "white") {
            return Ok(Draft::Color(Color::White));
        }
        let cs = chars_of(s);
        let n = cs.len();
        if starts_with(&cs, "hue:") {
            scan_hue(s.substring_char(4, n))
        } else if starts_with(&cs, "saturation:") {
            if n == 11 {
                Err(ColorParseError::NoSaturation)
            } else {
                Ok(Draft::Saturation(s.substring_char(11, n).to_owned()))
            }
        } else if starts_with(&cs, "brightness:") {
            if n == 11 {
                Err(ColorParseError::NoBrightness)
            } else {
                Ok(Draft::Brightness(s.substring_char(11, n).to_owned()))
            }
        } else if starts_with(&cs, "kelvin:") {
            scan_kelvin(s.substring_char(7, n))
        } else if starts_with(&cs, "rgb:") {
            scan_rgb(s.substring_char(4, n))
        } else {
            scan_hex(s, &cs)
        }
    }

    /// The color that a read saturation gives: the number as the saturation,
    /// or the failure to read it as the error.
    pub fn saturation(number: Result<Binary32, std::num::ParseFloatError>) -> (r: Result<
        Color,
        ColorParseError,
    >)
        ensures
            r == match number {
                Ok(v) => Ok::<Color, ColorParseError>(Color::Saturation(v)),
                Err(e) => Err(ColorParseError::NonNumericSaturation(e)),
            },
    {
        match number {
            Ok(v) => Ok(Color::Saturation(v)),
            Err(e) => Err(ColorParseError::NonNumericSaturation(e)),
        }
    }

    /// The color that a read brightness gives: the number as the brightness,
    /// or the failure to read it as the error.
    pub fn brightness(number: Result<Binary32, std::num::ParseFloatError>) -> (r: Result<
        Color,
        ColorParseError,
    >)
        ensures
            r == match number {
                Ok(v) => Ok::<Color, ColorParseError>(Color::Brightness(v)),
                Err(e) => Err(ColorParseError::NonNumericBrightness(e)),
            },
    {
        match number {
            Ok(v) => Ok(Color::Brightness(v)),
            Err(e) => Err(ColorParseError::NonNumericBrightness(e)),
        }
    }
}

/// Represents a (local) color validation error.
#[derive(Clone, Debug, PartialEq)]
pub enum Error {
    /// The given hue was greater than the maximum hue of 360.
    Hue(u16),
    /// The given saturation was greater than 1.
    SaturationHigh(Binary32),
    /// The given saturation was less than 0.
    SaturationLow(Binary32),
    /// The given brightness was greater than 1.
    BrightnessHigh(Binary32),
    /// The given brightness was less than 0.
    BrightnessLow(Binary32),
    /// The given temperature was greater than 9000 K.
    KelvinHigh(u16),
    /// The given temperature was less than 1500 K.
    KelvinLow(u16),
    /// The given RGB string was too short. The flag says whether it led with
    /// a `#`, and so whether seven characters were wanted or six.
    RgbStrShort(bool, String),
    /// The given RGB string was too long. The flag says whether it led with
    /// a `#`, and so whether seven characters were wanted or six.
    RgbStrLong(bool, String),
}

/// What an [`Error`] is to the contracts.
pub enum ErrorView {
    Hue(u16),
    SaturationHigh(Binary32),
    SaturationLow(Binary32),
    BrightnessHigh(Binary32),
    BrightnessLow(Binary32),
    KelvinHigh(u16),
    KelvinLow(u16),
    RgbStrShort(bool, Seq<char>),
    RgbStrLong(bool, Seq<char>),
}

impl View for Error {
    type V = ErrorView;

    open spec fn view(&self) -> ErrorView {
        match self {
            Error::Hue(h) => ErrorView::Hue(*h),
            Error::SaturationHigh(s) => ErrorView::SaturationHigh(*s),
            Error::SaturationLow(s) => ErrorView::SaturationLow(*s),
            Error::BrightnessHigh(b) => ErrorView::BrightnessHigh(*b),
            Error::BrightnessLow(b) => ErrorView::BrightnessLow(*b),
            Error::KelvinHigh(k) => ErrorView::KelvinHigh(*k),
            Error::KelvinLow(k) => ErrorView::KelvinLow(*k),
            Error::RgbStrShort(h, s) => ErrorView::RgbStrShort(*h, s@),
            Error::RgbStrLong(h, s) => ErrorView::RgbStrLong(*h, s@),
        }
    }
}

/// The greatest hue that the service accepts.
pub const HUE_MAX: u16 = 360;

/// The lowest temperature that the service accepts.
pub const KELVIN_MIN: u16 = 1500;

/// The highest temperature that the service accepts.
pub const KELVIN_MAX: u16 = 9000;

/// Whether an RGB string leads with a `#`.
pub open spec fn hashed(s: Seq<char>) -> bool {
    s.len() > 0 && s[0] == '#'
}

impl ColorView {
    /// Whether the service accepts the color, and why not: a hue up to 360, a
    /// saturation or a brightness from 0 to 1, a temperature from 1500 to
    /// 9000, an RGB string of six characters or of seven with its `#`.
    /// Keywords, RGB components and custom strings are always accepted.
    pub open spec fn validated(self) -> Result<(), ErrorView> {
        match self {
            ColorView::Hue(h) => if h > HUE_MAX {
                Err(ErrorView::Hue(h))
            } else {
                Ok(())
            },
            ColorView::Saturation(s) => if s.above_one() {
                Err(ErrorView::SaturationHigh(s))
            } else if s.below_zero() {
                Err(ErrorView::SaturationLow(s))
            } else {
                Ok(())
            },
            ColorView::Brightness(b) => if b.above_one() {
                Err(ErrorView::BrightnessHigh(b))
            } else if b.below_zero() {
                Err(ErrorView::BrightnessLow(b))
            } else {
                Ok(())
            },
            ColorView::Kelvin(k) => if k < KELVIN_MIN {
                Err(ErrorView::KelvinLow(k))
            } else if k > KELVIN_MAX {
                Err(ErrorView::KelvinHigh(k))
            } else {
                Ok(())
            },
            ColorView::RgbStr(s) => {
                let wanted: int = if hashed(s) {
                    7
                } else {
                    6
                };
                if s.len() > wanted {
                    Err(ErrorView::RgbStrLong(hashed(s), s))
                } else if s.len() < wanted {
                    Err(ErrorView::RgbStrShort(hashed(s), s))
                } else {
                    Ok(())
                }
            },
            _ => Ok(()),
        }
    }

    /// The text of the color. A saturation and a brightness are written with
    /// `number`, the text of their number, which the caller supplies; the
    /// other colors do not look at it. An RGB string always leads with `#`.
    pub open spec fn rendered(self, number: Seq<char>) -> Seq<char> {
        match self {
            ColorView::Red => "red"@,
            ColorView::Orange => "orange"@,
            ColorView::Yellow => "yellow"@,
            ColorView::Green => "green"@,
            ColorView::Blue => "blue"@,
            ColorView::Purple => "purple"@,
            ColorView::Pink => "pink"@,
            ColorView::White => "white"@,
            ColorView::Hue(h) => "hue:"@ + decimal(h as nat),
            ColorView::Saturation(_) => "saturation:"@ + number,
            ColorView::Brightness(_) => "brightness:"@ + number,
            ColorView::Kelvin(k) => "kelvin:"@ + decimal(k as nat),
            ColorView::Rgb(r, g, b) => "rgb:"@ + decimal(r as nat) + ","@ + decimal(g as nat)
                + ","@ + decimal(b as nat),
            ColorView::RgbStr(s) => if hashed(s) {
                s
            } else {
                "#"@ + s
            },
            ColorView::Custom(s) => s,
        }
    }

    /// The number whose text a rendering needs, if it needs one.
    pub open spec fn number(self) -> Option<Binary32> {
        match self {
            ColorView::Saturation(s) => Some(s),
            ColorView::Brightness(b) => Some(b),
            _ => None,
        }
    }
}

/// Whether `r` is the verdict `expected`, the error taken by its view.
pub open spec fn judged_as(r: Result<(), Error>, expected: Result<(), ErrorView>) -> bool {
    match expected {
        Ok(_) => r is Ok,
        Err(e) => r is Err && r->Err_0@ == e,
    }
}

impl Color {
    /// Checks whether the color is valid.
    ///
    /// Custom color strings are not validated.
    pub fn validate(&self) -> (r: Result<(), Error>)
        ensures
            judged_as(r, self@.validated()),
    {
        match self {
            Color::Hue(hue) => {
                if *hue > HUE_MAX {
                    Err(Error::Hue(*hue))
                } else {
                    Ok(())
                }
            },
            Color::Saturation(s) => {
                if s.is_above_one() {
                    Err(Error::SaturationHigh(*s))
                } else if s.is_below_zero() {
                    Err(Error::SaturationLow(*s))
                } else {
                    Ok(())
                }
            },
            Color::Brightness(b) => {
                if b.is_above_one() {
                    Err(Error::BrightnessHigh(*b))
                } else if b.is_below_zero() {
                    Err(Error::BrightnessLow(*b))
                } else {
                    Ok(())
                }
            },
            Color::Kelvin(t) => {
                if *t < KELVIN_MIN {
                    Err(Error::KelvinLow(*t))
                } else if *t > KELVIN_MAX {
                    Err(Error::KelvinHigh(*t))
                } else {
                    Ok(())
                }
            },
            Color::RgbStr(s) => {
                let n = s.as_str().unicode_len();
                let hash = n > 0 && s.as_str().get_char(0) == '#';
                let wanted: usize = if hash {
                    7
                } else {
                    6
                };
                if n > wanted {
                    Err(Error::RgbStrLong(hash, s.clone()))
                } else if n < wanted {
                    Err(Error::RgbStrShort(hash, s.clone()))
                } else {
                    Ok(())
                }
            },
            _ => Ok(()),
        }
    }

    /// The number whose text [`Color::render`] needs: that of a saturation or
    /// of a brightness.
    pub fn number(&self) -> (n: Option<Binary32>)
        ensures
            n == self@.number(),
    {
        match self {
            Color::Saturation(s) => Some(*s),
            Color::Brightness(b) => Some(*b),
            _ => None,
        }
    }

    /// Writes the color as the API reads it. `number` is the text of the
    /// number that [`Color::number`] names; the other colors ignore it.
    pub fn render(&self, number: &str) -> (text: String)
        ensures
            text@ == self@.rendered(number@),
    {
        match self {
            Color::Red => String::from_str("red"),
            Color::Orange => String::from_str("orange"),
            Color::Yellow => String::from_str("yellow"),
            Color::Green => String::from_str("green"),
            Color::Blue => String::from_str("blue"),
            Color::Purple => String::from_str("purple"),
            Color::Pink => String::from_str("pink"),
            Color::White => String::from_str("white"),
            Color::Hue(hue) => {
                let mut text = String::from_str("hue:");
                push_decimal(&mut text, *hue as u64);
                text
            },
            Color::Saturation(_) => {
                let mut text = String::from_str("saturation:");
                text.append(number);
                text
            },
            Color::Brightness(_) => {
                let mut text = String::from_str("brightness:");
                text.append(number);
                text
            },
            Color::Kelvin(t) => {
                let mut text = String::from_str("kelvin:");
                push_decimal(&mut text, *t as u64);
                text
            },
            Color::Rgb(rgb) => {
                let mut text = String::from_str("rgb:");
                push_decimal(&mut text, rgb[0] as u64);
                text.append(",");
                push_decimal(&mut text, rgb[1] as u64);
                text.append(",");
                push_decimal(&mut text, rgb[2] as u64);
                text
            },
            Color::RgbStr(s) => {
                let n = s.as_str().unicode_len();
                if n > 0 && s.as_str().get_char(0) == '#' {
                    s.clone()
                } else {
                    let mut text = String::from_str("#");
                    text.append(s.as_str());
                    text
                }
            },
            Color::Custom(s) => s.clone(),
        }
    }
}

impl ColorView {
    /// Whether the text of the color is the text of a color at all: that of
    /// a saturation or of a brightness asks for a number, and that of a
    /// custom color may be anything.
    pub open spec fn plain(self) -> bool {
        !(self is Saturation || self is Brightness || self is Custom)
    }

    /// The color as it is read back from its text: an RGB string leads with
    /// its `#` from then on.
    pub open spec fn normal(self) -> ColorView {
        match self {
            ColorView::RgbStr(s) => if hashed(s) {
                self
            } else {
                ColorView::RgbStr("#"@ + s)
            },
            _ => self,
        }
    }
}

proof fn lemma_digits_hold_no_comma(n: nat)
    ensures
        !occurs(decimal(n), ','),
{
    lemma_decimal_read_back(n);
    assert forall|j: int| 0 <= j < decimal(n).len() implies decimal(n)[j] != ',' by {
        assert(digit_value(decimal(n)[j]) >= 0);
    }
    lemma_absent(decimal(n), ',');
}

/// Reading what was written gives the color back: for every keyword, hue,
/// temperature and triple of components, and for every RGB string that the
/// service accepts, which comes back with its `#`.
pub proof fn lemma_scan_render(c: ColorView, number: Seq<char>)
    requires
        c.plain(),
        c is RgbStr ==> c.validated() is Ok,
    ensures
        scanned(c.rendered(number)) == Ok::<DraftView, ColorParseError>(
            DraftView::Color(c.normal()),
        ),
{
    reveal_strlit("red");
    reveal_strlit("orange");
    reveal_strlit("yellow");
    reveal_strlit("green");
    reveal_strlit("blue");
    reveal_strlit("purple");
    reveal_strlit("pink");
    reveal_strlit("white");
    reveal_strlit("hue:");
    reveal_strlit("saturation:");
    reveal_strlit("brightness:");
    reveal_strlit("kelvin:");
    reveal_strlit("rgb:");
    reveal_strlit(",");
    reveal_strlit("#");
    let t = c.rendered(number);
    match c {
        ColorView::Hue(h) => {
            lemma_decimal_read_back(h as nat);
            assert(t[3] == ':');
            assert(t.subrange(0, 4) =~= "hue:"@);
            assert(rest(t, 4) =~= decimal(h as nat));
        },
        ColorView::Kelvin(k) => {
            lemma_decimal_read_back(k as nat);
            assert(t[6] == ':');
            assert(t.subrange(0, 4)[0] == 'k');
            if t.len() >= 11 {
                assert(t.subrange(0, 11)[0] == 'k');
            }
            assert(t.subrange(0, 7) =~= "kelvin:"@);
            assert(rest(t, 7) =~= decimal(k as nat));
        },
        ColorView::Rgb(r, g, b) => {
            let red = decimal(r as nat);
            let green = decimal(g as nat);
            let blue = decimal(b as nat);
            lemma_decimal_read_back(r as nat);
            lemma_decimal_read_back(g as nat);
            lemma_decimal_read_back(b as nat);
            lemma_digits_hold_no_comma(r as nat);
            lemma_digits_hold_no_comma(g as nat);
            assert(t[3] == ':');
            assert(t.subrange(0, 4) =~= "rgb:"@);
            if t.len() >= 11 {
                assert(t.subrange(0, 11)[0] == 'r');
            }
            assert(t.subrange(0, 7)[0] == 'r');
            assert(t.subrange(0, 4)[0] == 'r');
            let body = rest(t, 4);
            let tail = green + seq![','] + blue;
            assert(body =~= red + seq![','] + tail);
            lemma_cut(red, ',', tail);
            lemma_cut(green, ',', blue);
        },
        ColorView::RgbStr(s) => {
            let u = c.normal()->RgbStr_0;
            assert(t =~= u);
            assert(u[0] == '#');
            assert(u.len() == 7);
            assert(u.subrange(0, 4)[0] == '#');
            assert(u.subrange(0, 7)[0] == '#');
        },
        _ => {},
    }
}

/// The text of a saturation or of a brightness is read back as a call for
/// the number that it was written with, as long as that is not empty.
pub proof fn lemma_scan_render_number(c: ColorView, number: Seq<char>)
    requires
        c is Saturation || c is Brightness,
        number.len() > 0,
    ensures
        scanned(c.rendered(number)) == Ok::<DraftView, ColorParseError>(
            if c is Saturation {
                DraftView::Saturation(number)
            } else {
                DraftView::Brightness(number)
            },
        ),
{
    reveal_strlit("red");
    reveal_strlit("orange");
    reveal_strlit("yellow");
    reveal_strlit("green");
    reveal_strlit("blue");
    reveal_strlit("purple");
    reveal_strlit("pink");
    reveal_strlit("white");
    reveal_strlit("hue:");
    reveal_strlit("saturation:");
    reveal_strlit("brightness:");
    let t = c.rendered(number);
    assert(t.len() >= 12);
    assert(t[10] == ':');
    if c is Saturation {
        assert(t.subrange(0, 4)[0] == 's');
        assert(t.subrange(0, 11) =~= "saturation:"@);
    } else {
        assert(t.subrange(0, 4)[0] == 'b');
        assert(t.subrange(0, 11)[0] == 'b');
        assert(t.subrange(0, 11) =~= "brightness:"@);
    }
    assert(rest(t, 11) =~= number);
}

} // verus!
