//! Reading colours and boxes from text.

use vstd::prelude::*;

use crate::error::{BoxInfoError, ColorError};
use crate::fixed::{clamp_i64, saturate};
use crate::state::BoxInfo;
use crate::utils::Color;

verus! {

/// The text without the `#` signs it begins with.
pub open spec fn strip_hashes(text: Seq<char>) -> Seq<char>
    decreases text.len(),
{
    if text.len() > 0 && text[0] == '#' {
        strip_hashes(text.skip(1))
    } else {
        text
    }
}

/// The value of a hexadecimal digit, in either case.
pub open spec fn hex_value(c: char) -> Option<int> {
    if '0' <= c <= '9' {
        Some(c as int - '0' as int)
    } else if 'a' <= c <= 'f' {
        Some(c as int - 'a' as int + 10)
    } else if 'A' <= c <= 'F' {
        Some(c as int - 'A' as int + 10)
    } else {
        None
    }
}

/// Whether the text is a colour: eight hexadecimal digits.
pub open spec fn is_color(digits: Seq<char>) -> bool {
    digits.len() == 8 && forall|i: int| 0 <= i < 8 ==> hex_value(#[trigger] digits[i]) is Some
}

/// The channel that two hexadecimal digits denote.
pub open spec fn channel(digits: Seq<char>, at: int) -> int {
    hex_value(digits[at])->Some_0 * 16 + hex_value(digits[at + 1])->Some_0
}

/// The colour that eight hexadecimal digits denote: red, green, blue and
/// alpha, two digits each.
pub open spec fn color_of(digits: Seq<char>) -> Color {
    Color {
        r: channel(digits, 0) as u8,
        g: channel(digits, 2) as u8,
        b: channel(digits, 4) as u8,
        a: channel(digits, 6) as u8,
    }
}

/// Reads a hexadecimal digit.
fn hex_digit(c: char) -> (value: Option<u8>)
    ensures
        match value {
            Some(v) => hex_value(c) == Some(v as int) && v < 16,
            None => hex_value(c) is None,
        },
{
    let code = c as u32;
    if code >= '0' as u32 && code <= '9' as u32 {
        Some((code - '0' as u32) as u8)
    } else if code >= 'a' as u32 && code <= 'f' as u32 {
        Some((code - 'a' as u32 + 10) as u8)
    } else if code >= 'A' as u32 && code <= 'F' as u32 {
        Some((code - 'A' as u32 + 10) as u8)
    } else {
        None
    }
}

impl Color {
    /// Reads a colour from the notation `#rrggbbaa`, with or without the
    /// sign. Anything but eight hexadecimal digits after the leading signs
    /// is refused, and the error quotes the text.
    pub fn hex_to_color(colorhex: String) -> (result: Result<Color, ColorError>)
        ensures
            match result {
                Ok(color) => is_color(strip_hashes(colorhex@)) && color == color_of(
                    strip_hashes(colorhex@),
                ),
                Err(ColorError::InvalidColorFormat(quoted)) => !is_color(strip_hashes(colorhex@))
                    && quoted@ == colorhex@,
            },
    {
        let text = colorhex.as_str();
        let length = text.unicode_len();
        let mut start: usize = 0;
        assert(text@.skip(0) =~= text@);
        while start < length && text.get_char(start) == '#'
            invariant
                start <= length == text@.len(),
                strip_hashes(text@) == strip_hashes(text@.skip(start as int)),
            decreases length - start,
        {
            assert(text@.skip(start as int).skip(1) =~= text@.skip(start + 1));
            start = start + 1;
        }
        let ghost digits = text@.skip(start as int);
        assert(strip_hashes(colorhex@) == digits);
        if length - start != 8 {
            return Err(ColorError::InvalidColorFormat(colorhex));
        }
        let mut values: [u8; 8] = [0;8];
        let mut i: usize = 0;
        while i < 8
            invariant
                i <= 8,
                start + 8 == length == text@.len(),
                digits == text@.skip(start as int),
                digits == strip_hashes(colorhex@),
                forall|j: int|
                    0 <= j < i ==> hex_value(#[trigger] digits[j]) == Some(values[j] as int),
                forall|j: int| 0 <= j < i ==> values[j] < 16,
            decreases 8 - i,
        {
            match hex_digit(text.get_char(start + i)) {
                Some(value) => {
                    values[i] = value;
                },
                None => {
                    assert(hex_value(digits[i as int]) is None);
                    return Err(ColorError::InvalidColorFormat(colorhex));
                },
            }
            i = i + 1;
        }
        Ok(
            Color {
                r: values[0] * 16 + values[1],
                g: values[2] * 16 + values[3],
                b: values[4] * 16 + values[5],
                a: values[6] * 16 + values[7],
            },
        )
    }
}

/// The four numbers of the description of a box, as they are written.
#[derive(Debug, PartialEq, Eq)]
pub struct BoxFields {
    pub x: String,
    pub y: String,
    pub width: String,
    pub height: String,
}

/// The index of the first occurrence of a character.
pub open spec fn position_of(text: Seq<char>, mark: char) -> Option<int> {
    text.index_of_first(mark)
}

/// The part of the text before an index.
pub open spec fn before(text: Seq<char>, at: int) -> Seq<char> {
    text.subrange(0, at)
}

/// The part of the text after an index.
pub open spec fn after(text: Seq<char>, at: int) -> Seq<char> {
    text.subrange(at + 1, text.len() as int)
}

/// The position part of the description of a box: what stands before the
/// first space.
pub open spec fn coords_part(text: Seq<char>) -> Seq<char> {
    before(text, position_of(text, ' ')->Some_0)
}

/// The size part of the description of a box: what stands after the first
/// space.
pub open spec fn size_part(text: Seq<char>) -> Seq<char> {
    after(text, position_of(text, ' ')->Some_0)
}

/// A character first occurs at an index exactly if it stands there and
/// nowhere before.
pub proof fn lemma_position_of(text: Seq<char>, mark: char)
    ensures
        match position_of(text, mark) {
            Some(i) => 0 <= i < text.len() && text[i] == mark && forall|j: int|
                0 <= j < i ==> text[j] != mark,
            None => forall|j: int| 0 <= j < text.len() ==> text[j] != mark,
        },
{
    text.index_of_first_ensures(mark);
}

/// Finds the first occurrence of a character between two indices of a text.
fn find(text: &str, from: usize, to: usize, mark: char) -> (found: Option<usize>)
    requires
        from <= to <= text@.len(),
    ensures
        match found {
            Some(i) => from <= i < to && position_of(text@.subrange(from as int, to as int), mark)
                == Some(i - from),
            None => position_of(text@.subrange(from as int, to as int), mark) is None,
        },
{
    let ghost part = text@.subrange(from as int, to as int);
    let mut i: usize = from;
    while i < to
        invariant
            from <= i <= to <= text@.len(),
            part == text@.subrange(from as int, to as int),
            forall|j: int| 0 <= j < i - from ==> part[j] != mark,
        decreases to - i,
    {
        if text.get_char(i) == mark {
            proof {
                assert(part[i - from] == mark);
                lemma_position_of(part, mark);
            }
            return Some(i);
        }
        assert(part[i - from] != mark);
        i = i + 1;
    }
    proof {
        lemma_position_of(part, mark);
    }
    None
}

/// Copies a part of a text.
fn part(text: &str, from: usize, to: usize) -> (copy: String)
    requires
        from <= to <= text@.len(),
    ensures
        copy@ == text@.subrange(from as int, to as int),
{
    String::from_str(text.substring_char(from, to))
}

impl BoxInfo {
    /// The box at a position with a size, all in sub-pixel units. An end
    /// beyond the range of a coordinate is limited to it.
    pub fn from_origin_and_size(x: i64, y: i64, width: i64, height: i64) -> (area: BoxInfo)
        ensures
            area.start_x == x,
            area.start_y == y,
            area.end_x == clamp_i64(x + width),
            area.end_y == clamp_i64(y + height),
    {
        BoxInfo {
            start_x: x,
            start_y: y,
            end_x: saturate(x as i128 + width as i128),
            end_y: saturate(y as i128 + height as i128),
        }
    }

    /// Splits the description of a box, `x,y WIDTHxHEIGHT`, into its four
    /// numbers as they are written.
    ///
    /// The description is divided at its first space, the position at its
    /// first comma and the size at its first `x`. The first of these that is
    /// missing is the error, which quotes the text that lacks it.
    pub fn split_box_string(box_string: &str) -> (result: Result<BoxFields, BoxInfoError>)
        ensures
            match result {
                Ok(fields) => {
                    &&& position_of(box_string@, ' ') is Some
                    &&& position_of(coords_part(box_string@), ',') matches Some(comma)
                    &&& position_of(size_part(box_string@), 'x') matches Some(cross)
                    &&& fields.x@ == before(coords_part(box_string@), comma)
                    &&& fields.y@ == after(coords_part(box_string@), comma)
                    &&& fields.width@ == before(size_part(box_string@), cross)
                    &&& fields.height@ == after(size_part(box_string@), cross)
                },
                Err(BoxInfoError::InvalidBoxString(quoted)) => {
                    &&& position_of(box_string@, ' ') is None
                    &&& quoted@ == box_string@
                },
                Err(BoxInfoError::InvalidBoxCoordsString(quoted)) => {
                    &&& position_of(box_string@, ' ') is Some
                    &&& position_of(coords_part(box_string@), ',') is None
                    &&& quoted@ == coords_part(box_string@)
                },
                Err(BoxInfoError::InvalidBoxSizeString(quoted)) => {
                    &&& position_of(box_string@, ' ') is Some
                    &&& position_of(coords_part(box_string@), ',') is Some
                    &&& position_of(size_part(box_string@), 'x') is None
                    &&& quoted@ == size_part(box_string@)
                },
            },
    {
        let length = box_string.unicode_len();
        assert(box_string@.subrange(0, length as int) =~= box_string@);
        let space = match find(box_string, 0, length, ' ') {
            Some(space) => space,
            None => {
                return Err(BoxInfoError::InvalidBoxString(String::from_str(box_string)));
            },
        };
        let ghost coords = coords_part(box_string@);
        let ghost size = size_part(box_string@);
        let comma = match find(box_string, 0, space, ',') {
            Some(comma) => comma,
            None => {
                return Err(BoxInfoError::InvalidBoxCoordsString(part(box_string, 0, space)));
            },
        };
        let cross = match find(box_string, space + 1, length, 'x') {
            Some(cross) => cross,
            None => {
                return Err(
                    BoxInfoError::InvalidBoxSizeString(part(box_string, space + 1, length)),
                );
            },
        };
        let fields = BoxFields {
            x: part(box_string, 0, comma),
            y: part(box_string, comma + 1, space),
            width: part(box_string, space + 1, cross),
            height: part(box_string, cross + 1, length),
        };
        assert(fields.x@ =~= before(coords, comma as int));
        assert(fields.y@ =~= after(coords, comma as int));
        assert(fields.width@ =~= before(size, cross - (space + 1)));
        assert(fields.height@ =~= after(size, cross - (space + 1)));
        Ok(fields)
    }
}

} // verus!
