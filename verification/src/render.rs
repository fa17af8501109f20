//! What is painted on an overlay.
//!
//! Painting is described as a list of operations on a drawing surface that
//! covers one display. Positions are in sub-pixel units and relative to the
//! top-left corner of the display. The caller carries the operations out in
//! order.

use vstd::prelude::*;

use crate::fixed::{clamp_i64, pixel_of, saturate, to_pixels, wide_to_pixels};
use crate::format::{decimal, push_decimal};
use crate::state::{BoxInfo, LayerSurfaceInfo};
use crate::utils::{Color, Position, Size, Style};

verus! {

/// Distance of a label from the corner it belongs to, in pixels.
pub const LABEL_GAP: i64 = 10;

/// Left edge of the labels of a display, in pixels.
pub const TITLE_X: i64 = 10;

/// Top edge of the first label of a display, in pixels.
pub const TITLE_Y: i64 = 60;

/// Space around the labels of a display within their backdrop, in pixels.
pub const TITLE_PADDING: i64 = 5;

/// A rectangle on a display. A negative extent reaches leftwards or upwards
/// from the corner.
#[derive(Debug, Clone, Copy, PartialEq, Eq, Structural)]
pub struct Rect {
    pub x: i64,
    pub y: i64,
    pub width: i64,
    pub height: i64,
}

/// One operation on the drawing surface of an overlay.
#[derive(Debug, PartialEq, Eq)]
pub enum DrawOp {
    /// Replace every pixel by the colour.
    Clear { color: Color },
    /// Fill a candidate box and trace its outline in the same colour.
    Candidate { rect: Rect, color: Color },
    /// Fill the selection, then trace its border.
    Selection { rect: Rect, fill: Color, border: Color, border_weight: i64 },
    /// Write a line of text with its top-left corner at a position.
    Text { text: String, x: i64, y: i64, bold: bool, color: Color },
    /// Fill a rectangle beneath everything painted so far.
    Backdrop { rect: Rect, color: Color },
    /// Attach the buffer, damage the display in its whole extent, commit.
    Present { width: i32, height: i32 },
}

/// An operation as a mathematical value: its text is a sequence of
/// characters.
pub enum DrawAct {
    Clear { color: Color },
    Candidate { rect: Rect, color: Color },
    Selection { rect: Rect, fill: Color, border: Color, border_weight: i64 },
    Text { text: Seq<char>, x: i64, y: i64, bold: bool, color: Color },
    Backdrop { rect: Rect, color: Color },
    Present { width: i32, height: i32 },
}

impl View for DrawOp {
    type V = DrawAct;

    open spec fn view(&self) -> DrawAct {
        match *self {
            DrawOp::Clear { color } => DrawAct::Clear { color },
            DrawOp::Candidate { rect, color } => DrawAct::Candidate { rect, color },
            DrawOp::Selection { rect, fill, border, border_weight } => DrawAct::Selection {
                rect,
                fill,
                border,
                border_weight,
            },
            DrawOp::Text { text, x, y, bold, color } => DrawAct::Text {
                text: text@,
                x,
                y,
                bold,
                color,
            },
            DrawOp::Backdrop { rect, color } => DrawAct::Backdrop { rect, color },
            DrawOp::Present { width, height } => DrawAct::Present { width, height },
        }
    }
}

/// The operations of a list as mathematical values.
pub open spec fn acts(ops: Seq<DrawOp>) -> Seq<DrawAct> {
    ops.map_values(|op: DrawOp| op@)
}

/// A coordinate of the shared space, seen from a display at `offset`
/// pixels; limited to the range of a coordinate.
pub open spec fn local(coordinate: int, offset: int) -> i64 {
    clamp_i64(coordinate - 256 * offset) as i64
}

/// The extent from one coordinate to another; limited to the range of a
/// coordinate.
pub open spec fn span(from: int, to: int) -> i64 {
    clamp_i64(to - from) as i64
}

/// The rectangle between two corners of the shared space, seen from a
/// display at `offset`.
pub open spec fn rect_between(start: Position<i64>, end: Position<i64>, offset: Position) -> Rect {
    Rect {
        x: local(start.x as int, offset.x as int),
        y: local(start.y as int, offset.y as int),
        width: span(start.x as int, end.x as int),
        height: span(start.y as int, end.y as int),
    }
}

/// The label of a selection: the pixel it starts at and its extent in
/// pixels, as `x,y, WIDTHxHEIGHT`.
pub open spec fn selection_label(start: Position<i64>, end: Position<i64>) -> Seq<char> {
    decimal(pixel_of(start.x as int)) + ","@ + decimal(pixel_of(start.y as int)) + ", "@ + decimal(
        pixel_of(end.x - start.x),
    ) + "x"@ + decimal(pixel_of(end.y - start.y))
}

/// The operation that paints a candidate box.
pub open spec fn candidate_act(area: BoxInfo, offset: Position, color: Color) -> DrawAct {
    DrawAct::Candidate { rect: rect_between(area.start(), area.end(), offset), color }
}

/// The operations that paint the first `count` candidate boxes.
pub open spec fn candidate_acts(boxes: Seq<BoxInfo>, count: int, offset: Position, color: Color)
    -> Seq<DrawAct> {
    Seq::new(count as nat, |i: int| candidate_act(boxes[i], offset, color))
}

/// The operations that paint a selection that has an end: the rectangle,
/// and its label below and to the right of the end where one is asked for.
pub open spec fn selection_acts(
    style: Style,
    start: Position<i64>,
    end: Position<i64>,
    offset: Position,
    draw_text: bool,
) -> Seq<DrawAct> {
    let rectangle = DrawAct::Selection {
        rect: rect_between(start, end, offset),
        fill: style.foreground_color,
        border: style.border_text_color,
        border_weight: style.border_weight,
    };
    if draw_text {
        seq![
            rectangle,
            DrawAct::Text {
                text: selection_label(start, end),
                x: clamp_i64(end.x - 256 * offset.x + 256 * LABEL_GAP) as i64,
                y: clamp_i64(end.y - 256 * offset.y + 256 * LABEL_GAP) as i64,
                bold: true,
                color: style.border_text_color,
            },
        ]
    } else {
        seq![rectangle]
    }
}

/// The operations that paint a selection in progress on a display: the
/// veil, the candidate boxes, the selection as far as it has an end, and
/// the presentation.
pub open spec fn selection_scene(
    style: Style,
    start: Position<i64>,
    end: Option<Position<i64>>,
    offset: Position,
    size: Size,
    draw_text: bool,
    boxes: Option<Seq<BoxInfo>>,
) -> Seq<DrawAct> {
    seq![DrawAct::Clear { color: style.background_color }] + (match boxes {
        Some(boxes) => candidate_acts(boxes, boxes.len() as int, offset, style.box_color),
        None => Seq::empty(),
    }) + (match end {
        Some(end) => selection_acts(style, start, end, offset, draw_text),
        None => Seq::empty(),
    }) + seq![DrawAct::Present { width: size.width, height: size.height }]
}

/// The first label of a display: its name and its description.
pub open spec fn screen_title(name: Seq<char>, description: Seq<char>) -> Seq<char> {
    name + "  "@ + description
}

/// The second label of a display: its position.
pub open spec fn screen_position(position: Position) -> Seq<char> {
    "pos: "@ + decimal(position.x as int) + ", "@ + decimal(position.y as int)
}

/// The backdrop of the two labels of a display whose extents in pixels are
/// `title` and `place`: as wide as the wider label and as high as both, with
/// padding around.
pub open spec fn backdrop_rect(title: Size, place: Size) -> Rect {
    Rect {
        x: (256 * (TITLE_X - TITLE_PADDING)) as i64,
        y: (256 * (TITLE_Y - TITLE_PADDING)) as i64,
        width: (256 * ((if title.width >= place.width {
            title.width
        } else {
            place.width
        }) + 2 * TITLE_PADDING)) as i64,
        height: (256 * (title.height + place.height + 3 * TITLE_PADDING + 1)) as i64,
    }
}

/// The operations that paint a display while a whole display is selected.
/// The selected display is cleared to the selection colour and labelled
/// with its name, description and position on a backdrop; every other
/// display is veiled.
pub open spec fn screen_scene(
    style: Style,
    selected: bool,
    size: Size,
    position: Position,
    name: Seq<char>,
    description: Seq<char>,
    title: Size,
    place: Size,
) -> Seq<DrawAct> {
    if selected {
        seq![
            DrawAct::Clear { color: style.foreground_color },
            DrawAct::Text {
                text: screen_title(name, description),
                x: (256 * TITLE_X) as i64,
                y: (256 * TITLE_Y) as i64,
                bold: false,
                color: style.border_text_color,
            },
            DrawAct::Text {
                text: screen_position(position),
                x: (256 * TITLE_X) as i64,
                y: (256 * (title.height + TITLE_Y + TITLE_PADDING)) as i64,
                bold: false,
                color: style.border_text_color,
            },
            DrawAct::Backdrop { rect: backdrop_rect(title, place), color: style.background_color },
            DrawAct::Present { width: size.width, height: size.height },
        ]
    } else {
        seq![
            DrawAct::Clear { color: style.background_color },
            DrawAct::Present { width: size.width, height: size.height },
        ]
    }
}

/// Computes the rectangle between two corners of the shared space, seen
/// from a display at `offset`.
pub fn rect_on_display(start: Position<i64>, end: Position<i64>, offset: Position) -> (rect: Rect)
    ensures
        rect == rect_between(start, end, offset),
{
    Rect {
        x: saturate(start.x as i128 - 256 * (offset.x as i128)),
        y: saturate(start.y as i128 - 256 * (offset.y as i128)),
        width: saturate(end.x as i128 - start.x as i128),
        height: saturate(end.y as i128 - start.y as i128),
    }
}

/// Writes the label of a selection.
pub fn label_of_selection(start: Position<i64>, end: Position<i64>) -> (label: String)
    ensures
        label@ == selection_label(start, end),
{
    proof {
        reveal_strlit(",");
        reveal_strlit(", ");
        reveal_strlit("x");
    }
    let mut label = String::new();
    push_decimal(&mut label, to_pixels(start.x) as i64);
    label.append(",");
    push_decimal(&mut label, to_pixels(start.y) as i64);
    label.append(", ");
    push_decimal(&mut label, wide_to_pixels(end.x as i128 - start.x as i128) as i64);
    label.append("x");
    push_decimal(&mut label, wide_to_pixels(end.y as i128 - start.y as i128) as i64);
    assert(label@ =~= selection_label(start, end));
    label
}

/// Writes the two labels of a display: its name with its description, and
/// its position. The caller measures them before the display is painted.
pub fn screen_labels(name: &str, description: &str, position: Position) -> (labels: (
    String,
    String,
))
    ensures
        labels.0@ == screen_title(name@, description@),
        labels.1@ == screen_position(position),
{
    let mut title = String::from_str(name);
    title.append("  ");
    title.append(description);
    let mut place = String::from_str("pos: ");
    push_decimal(&mut place, position.x as i64);
    place.append(", ");
    push_decimal(&mut place, position.y as i64);
    assert(title@ =~= screen_title(name@, description@));
    assert(place@ =~= screen_position(position));
    (title, place)
}

impl LayerSurfaceInfo {
    /// Lists the operations that paint a selection in progress on this
    /// overlay, whose display lies at `offset` and has the extent `size`.
    pub fn redraw(
        &self,
        start: Position<i64>,
        end: Option<Position<i64>>,
        offset: Position,
        size: Size,
        draw_text: bool,
        boxes: Option<&Vec<BoxInfo>>,
    ) -> (ops: Vec<DrawOp>)
        ensures
            acts(ops@) == selection_scene(
                self.style,
                start,
                end,
                offset,
                size,
                draw_text,
                match boxes {
                    Some(boxes) => Some(boxes@),
                    None => None,
                },
            ),
    {
        let mut ops: Vec<DrawOp> = Vec::new();
        ops.push(DrawOp::Clear { color: self.style.background_color });
        let ghost veil = seq![DrawAct::Clear { color: self.style.background_color }];
        assert(acts(ops@) =~= veil);
        let ghost mut painted_boxes = Seq::<DrawAct>::empty();
        match boxes {
            Some(boxes) => {
                let mut i: usize = 0;
                assert(acts(ops@) =~= veil + candidate_acts(
                    boxes@,
                    0,
                    offset,
                    self.style.box_color,
                ));
                while i < boxes.len()
                    invariant
                        i <= boxes@.len(),
                        veil == seq![DrawAct::Clear { color: self.style.background_color }],
                        acts(ops@) == veil + candidate_acts(
                            boxes@,
                            i as int,
                            offset,
                            self.style.box_color,
                        ),
                    decreases boxes@.len() - i,
                {
                    let area = boxes[i];
                    let rect = rect_on_display(
                        Position { x: area.start_x, y: area.start_y },
                        Position { x: area.end_x, y: area.end_y },
                        offset,
                    );
                    let ghost before = ops@;
                    ops.push(DrawOp::Candidate { rect, color: self.style.box_color });
                    assert(acts(ops@) =~= acts(before).push(
                        candidate_act(boxes@[i as int], offset, self.style.box_color),
                    ));
                    assert(acts(ops@) =~= veil + candidate_acts(
                        boxes@,
                        i + 1,
                        offset,
                        self.style.box_color,
                    ));
                    i = i + 1;
                }
                proof {
                    painted_boxes =
                    candidate_acts(boxes@, boxes@.len() as int, offset, self.style.box_color);
                }
            },
            None => {
                assert(acts(ops@) =~= veil + painted_boxes);
            },
        }
        assert(acts(ops@) == veil + painted_boxes);
        let ghost mut painted_selection = Seq::<DrawAct>::empty();
        match end {
            Some(end) => {
                let ghost before = ops@;
                ops.push(
                    DrawOp::Selection {
                        rect: rect_on_display(start, end, offset),
                        fill: self.style.foreground_color,
                        border: self.style.border_text_color,
                        border_weight: self.style.border_weight,
                    },
                );
                if draw_text {
                    ops.push(
                        DrawOp::Text {
                            text: label_of_selection(start, end),
                            x: saturate(
                                end.x as i128 - 256 * (offset.x as i128) + 256 * (LABEL_GAP
                                    as i128),
                            ),
                            y: saturate(
                                end.y as i128 - 256 * (offset.y as i128) + 256 * (LABEL_GAP
                                    as i128),
                            ),
                            bold: true,
                            color: self.style.border_text_color,
                        },
                    );
                }
                proof {
                    painted_selection = selection_acts(self.style, start, end, offset, draw_text);
                }
                assert(acts(ops@) =~= acts(before) + painted_selection);
            },
            None => {
                assert(acts(ops@) =~= veil + painted_boxes + painted_selection);
            },
        }
        assert(acts(ops@) == veil + painted_boxes + painted_selection);
        let ghost before = ops@;
        ops.push(DrawOp::Present { width: size.width, height: size.height });
        assert(acts(ops@) =~= acts(before) + seq![
            DrawAct::Present { width: size.width, height: size.height },
        ]);
        ops
    }

    /// Lists the operations that paint this overlay while a whole display
    /// is selected. `title` and `place` are the extents in pixels of the two
    /// labels of the display, as the caller has measured them; they count
    /// only where the display is the selected one.
    pub fn redraw_select_screen(
        &self,
        is_selected: bool,
        size: Size,
        position: Position,
        name: &str,
        description: &str,
        title: Size,
        place: Size,
    ) -> (ops: Vec<DrawOp>)
        ensures
            acts(ops@) == screen_scene(
                self.style,
                is_selected,
                size,
                position,
                name@,
                description@,
                title,
                place,
            ),
    {
        let mut ops: Vec<DrawOp> = Vec::new();
        if is_selected {
            let (first, second) = screen_labels(name, description, position);
            let wider: i64 = if title.width >= place.width {
                title.width as i64
            } else {
                place.width as i64
            };
            ops.push(DrawOp::Clear { color: self.style.foreground_color });
            ops.push(
                DrawOp::Text {
                    text: first,
                    x: 256 * TITLE_X,
                    y: 256 * TITLE_Y,
                    bold: false,
                    color: self.style.border_text_color,
                },
            );
            ops.push(
                DrawOp::Text {
                    text: second,
                    x: 256 * TITLE_X,
                    y: 256 * (title.height as i64 + TITLE_Y + TITLE_PADDING),
                    bold: false,
                    color: self.style.border_text_color,
                },
            );
            ops.push(
                DrawOp::Backdrop {
                    rect: Rect {
                        x: 256 * (TITLE_X - TITLE_PADDING),
                        y: 256 * (TITLE_Y - TITLE_PADDING),
                        width: 256 * (wider + 2 * TITLE_PADDING),
                        height: 256 * (title.height as i64 + place.height as i64 + 3
                            * TITLE_PADDING + 1),
                    },
                    color: self.style.background_color,
                },
            );
        } else {
            ops.push(DrawOp::Clear { color: self.style.background_color });
        }
        ops.push(DrawOp::Present { width: size.width, height: size.height });
        assert(acts(ops@) =~= screen_scene(
            self.style,
            is_selected,
            size,
            position,
            name@,
            description@,
            title,
            place,
        ));
        ops
    }
}

} // verus!
