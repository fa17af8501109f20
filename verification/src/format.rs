//! Rendering a result as text.
//!
//! A format is copied to the output character by character, except for
//! directives: `%` followed by a letter stands for a value of the result,
//! and `\` followed by a character for that character, `\n` for a line feed.

use vstd::prelude::*;

use crate::fixed::{clamp_i32, pixel_of};
use crate::state::AreaInfo;

verus! {

/// The character of a decimal digit.
pub open spec fn digit_char(d: int) -> char
    recommends
        0 <= d < 10,
{
    seq!['0', '1', '2', '3', '4', '5', '6', '7', '8', '9'][d]
}

/// The decimal digits of a natural number, without leading zeros.
pub open spec fn decimal_nat(n: nat) -> Seq<char>
    decreases n,
{
    if n < 10 {
        seq![digit_char(n as int)]
    } else {
        decimal_nat(n / 10).push(digit_char((n % 10) as int))
    }
}

/// The decimal notation of an integer: a minus sign for a negative number,
/// then the digits.
pub open spec fn decimal(v: int) -> Seq<char> {
    if v < 0 {
        seq!['-'] + decimal_nat((-v) as nat)
    } else {
        decimal_nat(v as nat)
    }
}

/// The text of one decimal digit.
fn digit_str(d: u64) -> (text: &'static str)
    requires
        d < 10,
    ensures
        text@ == seq![digit_char(d as int)],
{
    proof {
        reveal_strlit("0");
        reveal_strlit("1");
        reveal_strlit("2");
        reveal_strlit("3");
        reveal_strlit("4");
        reveal_strlit("5");
        reveal_strlit("6");
        reveal_strlit("7");
        reveal_strlit("8");
        reveal_strlit("9");
    }
    let text = if d == 0 {
        "0"
    } else if d == 1 {
        "1"
    } else if d == 2 {
        "2"
    } else if d == 3 {
        "3"
    } else if d == 4 {
        "4"
    } else if d == 5 {
        "5"
    } else if d == 6 {
        "6"
    } else if d == 7 {
        "7"
    } else if d == 8 {
        "8"
    } else {
        "9"
    };
    assert(text@ =~= seq![digit_char(d as int)]);
    text
}

/// Appends the decimal digits of a natural number.
pub fn push_decimal_nat(out: &mut String, n: u64)
    ensures
        final(out)@ == old(out)@ + decimal_nat(n as nat),
    decreases n,
{
    if n >= 10 {
        push_decimal_nat(out, n / 10);
    }
    out.append(digit_str(n % 10));
    assert(out@ =~= old(out)@ + decimal_nat(n as nat));
}

/// Appends the decimal notation of an integer.
pub fn push_decimal(out: &mut String, v: i64)
    ensures
        final(out)@ == old(out)@ + decimal(v as int),
{
    if v < 0 {
        out.append("-");
        proof {
            reveal_strlit("-");
        }
        let magnitude: u64 = (-(v as i128)) as u64;
        push_decimal_nat(out, magnitude);
        assert(out@ =~= old(out)@ + decimal(v as int));
    } else {
        push_decimal_nat(out, v as u64);
    }
}

/// The values that the directives of a format stand for.
#[derive(Debug, PartialEq, Eq)]
pub struct FormatValues {
    /// `%x`: left edge.
    pub x: i32,
    /// `%y`: top edge.
    pub y: i32,
    /// `%w`: width.
    pub width: i32,
    /// `%h`: height.
    pub height: i32,
    /// `%X`: left edge, relative to the display.
    pub rel_x: i32,
    /// `%Y`: top edge, relative to the display.
    pub rel_y: i32,
    /// `%W`: width, cut off at the right edge of the display.
    pub rel_width: i32,
    /// `%H`: height, cut off at the bottom edge of the display.
    pub rel_height: i32,
    /// `%o` and `%l`: name of the display.
    pub name: String,
    /// `%d`: description of the display.
    pub description: String,
    /// `%L`: width of the display's video mode.
    pub mode_width: i32,
    /// `%T`: height of the display's video mode.
    pub mode_height: i32,
}

/// The values of a result as mathematical values.
pub struct FormatFields {
    pub x: int,
    pub y: int,
    pub width: int,
    pub height: int,
    pub rel_x: int,
    pub rel_y: int,
    pub rel_width: int,
    pub rel_height: int,
    pub name: Seq<char>,
    pub description: Seq<char>,
    pub mode_width: int,
    pub mode_height: int,
}

impl View for FormatValues {
    type V = FormatFields;

    open spec fn view(&self) -> FormatFields {
        FormatFields {
            x: self.x as int,
            y: self.y as int,
            width: self.width as int,
            height: self.height as int,
            rel_x: self.rel_x as int,
            rel_y: self.rel_y as int,
            rel_width: self.rel_width as int,
            rel_height: self.rel_height as int,
            name: self.name@,
            description: self.description@,
            mode_width: self.mode_width as int,
            mode_height: self.mode_height as int,
        }
    }
}

/// The larger of two numbers.
pub open spec fn larger(a: int, b: int) -> int {
    if a >= b {
        a
    } else {
        b
    }
}

/// The smaller of two numbers.
pub open spec fn smaller(a: int, b: int) -> int {
    if a <= b {
        a
    } else {
        b
    }
}

/// The difference `a - b`, limited to the range of `i32`.
pub open spec fn saturating_difference(a: int, b: int) -> int {
    clamp_i32(a - b)
}

/// Computes `a - b`, limited to the range of `i32`.
fn difference(a: i32, b: i32) -> (d: i32)
    ensures
        d == saturating_difference(a as int, b as int),
{
    let wide: i64 = a as i64 - b as i64;
    if wide < i32::MIN as i64 {
        i32::MIN
    } else if wide > i32::MAX as i64 {
        i32::MAX
    } else {
        wide as i32
    }
}

impl AreaInfo {
    /// The rectangle that a format speaks of, as left edge, top edge, width
    /// and height: the selected area, or the whole display where a display
    /// was selected. Width and height are at least one pixel.
    pub open spec fn rectangle(self, screen: bool) -> (int, int, int, int) {
        if screen {
            (
                self.screen_info.position.x as int,
                self.screen_info.position.y as int,
                larger(self.screen_info.screen_size.width as int, 1),
                larger(self.screen_info.screen_size.height as int, 1),
            )
        } else {
            (
                pixel_of(self.left()),
                pixel_of(self.top()),
                larger(pixel_of(self.extent_x()), 1),
                larger(pixel_of(self.extent_y()), 1),
            )
        }
    }

    /// The values that the directives of a format stand for. The relative
    /// position is counted from the display's corner, and the relative
    /// extent ends where the display ends.
    pub open spec fn fields(self, screen: bool) -> FormatFields {
        let (x, y, width, height) = self.rectangle(screen);
        let rel_x = saturating_difference(x, self.screen_info.position.x as int);
        let rel_y = saturating_difference(y, self.screen_info.position.y as int);
        FormatFields {
            x,
            y,
            width,
            height,
            rel_x,
            rel_y,
            rel_width: smaller(
                width,
                saturating_difference(self.screen_info.screen_size.width as int, rel_x),
            ),
            rel_height: smaller(
                height,
                saturating_difference(self.screen_info.screen_size.height as int, rel_y),
            ),
            name: self.screen_info.name@,
            description: self.screen_info.description@,
            mode_width: self.screen_info.output_size.width as int,
            mode_height: self.screen_info.output_size.height as int,
        }
    }

    /// Computes the values that the directives of a format stand for. With
    /// `screen` they describe the whole display, else the selected area.
    pub fn format_values(&self, screen: bool) -> (values: FormatValues)
        ensures
            values@ == self.fields(screen),
    {
        let origin = self.screen_info.position;
        let extent = self.screen_info.screen_size;
        let mode = self.screen_info.output_size;
        let (x, y, width, height) = if !screen {
            let corner = self.left_top_point();
            let w = self.width();
            let h = self.height();
            (corner.x, corner.y, if w >= 1 {
                w
            } else {
                1
            }, if h >= 1 {
                h
            } else {
                1
            })
        } else {
            (origin.x, origin.y, if extent.width >= 1 {
                extent.width
            } else {
                1
            }, if extent.height >= 1 {
                extent.height
            } else {
                1
            })
        };
        let rel_x = difference(x, origin.x);
        let rel_y = difference(y, origin.y);
        let room_x = difference(extent.width, rel_x);
        let room_y = difference(extent.height, rel_y);
        FormatValues {
            x,
            y,
            width,
            height,
            rel_x,
            rel_y,
            rel_width: if width <= room_x {
                width
            } else {
                room_x
            },
            rel_height: if height <= room_y {
                height
            } else {
                room_y
            },
            name: self.screen_info.name.clone(),
            description: self.screen_info.description.clone(),
            mode_width: mode.width,
            mode_height: mode.height,
        }
    }
}

/// What `%` followed by `letter` stands for. A letter that names no value
/// stands for itself, `%%` for a percent sign.
pub open spec fn directive(letter: char, values: FormatFields) -> Seq<char> {
    if letter == 'x' {
        decimal(values.x)
    } else if letter == 'y' {
        decimal(values.y)
    } else if letter == 'w' {
        decimal(values.width)
    } else if letter == 'h' {
        decimal(values.height)
    } else if letter == 'X' {
        decimal(values.rel_x)
    } else if letter == 'Y' {
        decimal(values.rel_y)
    } else if letter == 'W' {
        decimal(values.rel_width)
    } else if letter == 'H' {
        decimal(values.rel_height)
    } else if letter == 'o' || letter == 'l' {
        values.name
    } else if letter == 'd' {
        values.description
    } else if letter == 'L' {
        decimal(values.mode_width)
    } else if letter == 'T' {
        decimal(values.mode_height)
    } else {
        seq![letter]
    }
}

/// What `\` followed by `letter` stands for.
pub open spec fn escape(letter: char) -> Seq<char> {
    if letter == 'n' {
        seq!['\n']
    } else {
        seq![letter]
    }
}

/// The text that a format expands to. A `%` or `\` at the very end stands
/// for itself.
pub open spec fn expand(format: Seq<char>, values: FormatFields) -> Seq<char>
    decreases format.len(),
{
    if format.len() == 0 {
        Seq::empty()
    } else if format[0] == '%' {
        if format.len() == 1 {
            seq!['%']
        } else {
            directive(format[1], values) + expand(format.skip(2), values)
        }
    } else if format[0] == '\\' {
        if format.len() == 1 {
            seq!['\\']
        } else {
            escape(format[1]) + expand(format.skip(2), values)
        }
    } else {
        seq![format[0]] + expand(format.skip(1), values)
    }
}

/// Appends what `%` followed by `letter` stands for, where `letter` is the
/// character of `format` at `at`.
fn push_directive(out: &mut String, format: &str, at: usize, values: &FormatValues)
    requires
        at < format@.len() <= usize::MAX,
    ensures
        final(out)@ == old(out)@ + directive(format@[at as int], values@),
{
    let letter = format.get_char(at);
    if letter == 'x' {
        push_decimal(out, values.x as i64);
    } else if letter == 'y' {
        push_decimal(out, values.y as i64);
    } else if letter == 'w' {
        push_decimal(out, values.width as i64);
    } else if letter == 'h' {
        push_decimal(out, values.height as i64);
    } else if letter == 'X' {
        push_decimal(out, values.rel_x as i64);
    } else if letter == 'Y' {
        push_decimal(out, values.rel_y as i64);
    } else if letter == 'W' {
        push_decimal(out, values.rel_width as i64);
    } else if letter == 'H' {
        push_decimal(out, values.rel_height as i64);
    } else if letter == 'o' || letter == 'l' {
        out.append(values.name.as_str());
    } else if letter == 'd' {
        out.append(values.description.as_str());
    } else if letter == 'L' {
        push_decimal(out, values.mode_width as i64);
    } else if letter == 'T' {
        push_decimal(out, values.mode_height as i64);
    } else {
        out.append(format.substring_char(at, at + 1));
        assert(format@.subrange(at as int, at + 1) =~= seq![letter]);
    }
}

/// Expands a format with the given values.
pub fn expand_format(format: &str, values: &FormatValues) -> (text: String)
    ensures
        text@ == expand(format@, values@),
{
    let length = format.unicode_len();
    let mut out = String::new();
    let mut i: usize = 0;
    assert(format@.skip(0) =~= format@);
    while i < length
        invariant
            i <= length == format@.len(),
            out@ + expand(format@.skip(i as int), values@) == expand(format@, values@),
        decreases length - i,
    {
        let ghost rest = format@.skip(i as int);
        let ghost before = out@;
        let c = format.get_char(i);
        assert(rest[0] == c);
        if c == '%' {
            if i + 1 == length {
                proof {
                    reveal_strlit("%");
                }
                out.append("%");
                assert(rest.len() == 1);
                assert(out@ =~= before + expand(rest, values@));
                assert(format@.skip(i + 1).len() == 0);
                i = i + 1;
            } else {
                assert(rest[1] == format@[i + 1]);
                push_directive(&mut out, format, i + 1, values);
                assert(rest.skip(2) =~= format@.skip(i + 2));
                assert(out@ + expand(format@.skip(i + 2), values@) =~= before + expand(
                    rest,
                    values@,
                ));
                i = i + 2;
            }
        } else if c == '\\' {
            if i + 1 == length {
                proof {
                    reveal_strlit("\\");
                }
                out.append("\\");
                assert(rest.len() == 1);
                assert(out@ =~= before + expand(rest, values@));
                assert(format@.skip(i + 1).len() == 0);
                i = i + 1;
            } else {
                let letter = format.get_char(i + 1);
                assert(rest[1] == letter);
                if letter == 'n' {
                    proof {
                        reveal_strlit("\n");
                    }
                    out.append("\n");
                    assert(out@ =~= before + escape(letter));
                } else {
                    out.append(format.substring_char(i + 1, i + 2));
                    assert(format@.subrange(i + 1, i + 2) =~= seq![letter]);
                    assert(out@ =~= before + escape(letter));
                }
                assert(rest.skip(2) =~= format@.skip(i + 2));
                assert(out@ + expand(format@.skip(i + 2), values@) =~= before + expand(
                    rest,
                    values@,
                ));
                i = i + 2;
            }
        } else {
            out.append(format.substring_char(i, i + 1));
            assert(format@.subrange(i as int, i + 1) =~= seq![c]);
            assert(rest.skip(1) =~= format@.skip(i + 1));
            assert(out@ + expand(format@.skip(i + 1), values@) =~= before + expand(rest, values@));
            i = i + 1;
        }
    }
    assert(format@.skip(i as int).len() == 0);
    assert(out@ =~= expand(format@, values@));
    out
}

/// Renders a result in a format. With `screen` the rectangle is the whole
/// display, else the selected area.
pub fn apply_format(info: &AreaInfo, fmt: &str, screen: bool) -> (text: String)
    ensures
        text@ == expand(fmt@, info.fields(screen)),
{
    let values = info.format_values(screen);
    expand_format(fmt, &values)
}

} // verus!
