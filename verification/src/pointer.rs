//! The selection state machine: what pointer and keyboard events do to a
//! session.
//!
//! Every handler takes the session and an event and leaves the session in
//! the state that a spec function of the same event names; what the caller
//! has to carry out in response comes back as a [`Reaction`].

use vstd::prelude::*;

use crate::fixed::{clamp_i64, quotient_toward_zero, saturate};
use crate::state::{
    carriers,
    lemma_first_index,
    BoxInfo,
    CursorImage,
    ObjectId,
    SelectionType,
    WaysipState,
};
use crate::utils::Position;

verus! {

/// The key that cancels a selection: the scan code of Escape.
pub const CANCEL_KEY: u32 = 1;

/// Shortest time between two repaints asked for by motion while an area is
/// dragged, in nanoseconds.
pub const AREA_REDRAW_INTERVAL: u64 = 8_000_000;

/// Shortest time between two repaints asked for by motion while candidate
/// boxes are shown, in nanoseconds.
pub const BOX_REDRAW_INTERVAL: u64 = 20_000_000;

/// The state of a pointer button after a button event.
#[derive(Debug, Clone, Copy, PartialEq, Eq, Structural)]
pub enum ButtonState {
    Pressed,
    Released,
    /// A state this library does not know.
    Other,
}

/// An event of the pointer. Positions are local to a surface, in sub-pixel
/// units.
#[derive(Debug, Clone, Copy, PartialEq, Eq, Structural)]
pub enum PointerEvent {
    /// The pointer came onto a surface.
    Enter { surface: ObjectId, surface_x: i32, surface_y: i32 },
    /// The pointer moved on the surface it is on.
    Motion { surface_x: i32, surface_y: i32 },
    /// A button changed its state.
    Button { state: ButtonState },
    /// Any other event; it is ignored.
    Other,
}

/// How the cursor is to be set when the pointer enters an overlay.
#[derive(Debug, Clone, Copy, PartialEq, Eq, Structural)]
pub enum CursorRequest {
    /// Ask the compositor for the crosshair shape.
    Shape,
    /// Attach the themed image to the cursor surface and set it with the
    /// image's hotspot.
    Themed { surface: ObjectId, image: CursorImage },
}

/// What the caller has to carry out after an event.
#[derive(Debug, Clone, Copy, PartialEq, Eq, Structural)]
pub struct Reaction {
    /// The cursor to set, if any.
    pub cursor: Option<CursorRequest>,
    /// Whether to request a frame callback for every overlay and commit it.
    pub commit: bool,
}

/// How far a session has come.
#[derive(Debug, Clone, Copy, PartialEq, Eq, Structural)]
pub enum SessionPhase {
    /// The session goes on and the selection has no start.
    Idle,
    /// The session goes on and the selection has a start.
    Anchored,
    /// The session has ended.
    Terminated,
}

/// The reaction that asks for nothing.
pub open spec fn idle() -> Reaction {
    Reaction { cursor: None, commit: false }
}

/// The reaction that asks for a repaint only.
pub open spec fn repaint() -> Reaction {
    Reaction { cursor: None, commit: true }
}

/// Whether a repaint is due at `now` when the last one was asked for at
/// `last` and at least `interval` has to pass between two.
pub open spec fn due(last: Option<u64>, now: u64, interval: u64) -> bool {
    match last {
        Some(then) => now - then >= interval,
        None => true,
    }
}

/// Whether an aspect ratio is in force: both of its parts are positive.
pub open spec fn ratio_locks(ratio: Option<(u32, u32)>) -> bool {
    ratio matches Some(r) && r.0 > 0 && r.1 > 0
}

/// Whether the height of the drag is kept and the width derived from it:
/// the ratio `w / h` exceeds the ratio `dx / dy` of the drag. A drag without
/// height counts as infinitely wide in the direction of `dx`, and a drag
/// without any extent keeps its width.
pub open spec fn anchors_height(w: int, h: int, dx: int, dy: int) -> bool {
    ||| dy > 0 && w * dy > dx * h
    ||| dy < 0 && w * dy < dx * h
    ||| dy == 0 && dx < 0
}

/// The end of a selection from `start` towards `current` under the aspect
/// ratio `w : h`. One extent of the drag is kept, the other is the kept one
/// scaled by the ratio, rounded toward zero and limited to the range of a
/// coordinate.
pub open spec fn locked_end(w: int, h: int, start: Position<i64>, current: Position<i64>)
    -> Position<i64> {
    let dx = current.x - start.x;
    let dy = current.y - start.y;
    if anchors_height(w, h, dx, dy) {
        Position { x: clamp_i64(start.x + quotient_toward_zero(dy * w, h)) as i64, y: current.y }
    } else {
        Position { x: current.x, y: clamp_i64(start.y + quotient_toward_zero(dx * h, w)) as i64 }
    }
}

/// The end of a dragged area: `current` itself, or what the aspect ratio
/// makes of it.
pub open spec fn area_end(
    ratio: Option<(u32, u32)>,
    start: Position<i64>,
    current: Position<i64>,
) -> Position<i64> {
    if ratio_locks(ratio) {
        locked_end(ratio->Some_0.0 as int, ratio->Some_0.1 as int, start, current)
    } else {
        current
    }
}

/// The first of the boxes that contains the point.
pub open spec fn first_hit(boxes: Seq<BoxInfo>, point: Position<i64>) -> Option<BoxInfo>
    decreases boxes.len(),
{
    if boxes.len() == 0 {
        None
    } else if boxes[0].contains(point) {
        Some(boxes[0])
    } else {
        first_hit(boxes.drop_first(), point)
    }
}

/// A hit is a box of the list that contains the point, and no box before it
/// does; there is no hit exactly if no box contains the point.
pub proof fn lemma_first_hit(boxes: Seq<BoxInfo>, point: Position<i64>)
    ensures
        match first_hit(boxes, point) {
            Some(hit) => exists|i: int|
                0 <= i < boxes.len() && boxes[i] == hit && hit.contains(point) && forall|j: int|
                    0 <= j < i ==> !(#[trigger] boxes[j]).contains(point),
            None => forall|j: int| 0 <= j < boxes.len() ==> !(#[trigger] boxes[j]).contains(point),
        },
    decreases boxes.len(),
{
    if boxes.len() == 0 {
    } else if boxes[0].contains(point) {
        assert(boxes[0] == first_hit(boxes, point)->Some_0);
    } else {
        let rest = boxes.drop_first();
        lemma_first_hit(rest, point);
        match first_hit(rest, point) {
            Some(hit) => {
                let i = choose|i: int|
                    0 <= i < rest.len() && rest[i] == hit && hit.contains(point) && forall|j: int|
                        0 <= j < i ==> !(#[trigger] rest[j]).contains(point);
                assert(boxes[i + 1] == hit);
                assert forall|j: int| 0 <= j < i + 1 implies !(#[trigger] boxes[j]).contains(
                    point,
                ) by {
                    if j > 0 {
                        assert(boxes[j] == rest[j - 1]);
                    }
                }
            },
            None => {
                assert forall|j: int| 0 <= j < boxes.len() implies !(#[trigger] boxes[j]).contains(
                    point,
                ) by {
                    if j > 0 {
                        assert(boxes[j] == rest[j - 1]);
                    }
                }
            },
        }
    }
}

proof fn lemma_scaled_extent_fits(extent: int, part: int)
    by (nonlinear_arith)
    requires
        -0x1_0000_0000_0000_0000 < extent < 0x1_0000_0000_0000_0000,
        0 <= part <= 0xffff_ffff,
    ensures
        -0x1_0000_0000_0000_0000_0000_0000 < extent * part < 0x1_0000_0000_0000_0000_0000_0000,
{
}

proof fn lemma_quotient_no_larger(n: int, d: int)
    by (nonlinear_arith)
    requires
        d > 0,
    ensures
        n >= 0 ==> 0 <= n / d <= n,
{
}

/// Scales an extent by `times / per`, rounding toward zero.
fn scale(extent: i128, times: u32, per: u32) -> (scaled: i128)
    requires
        -0x1_0000_0000_0000_0000 < extent < 0x1_0000_0000_0000_0000,
        per > 0,
    ensures
        scaled == quotient_toward_zero(extent * times, per as int),
        -0x1_0000_0000_0000_0000_0000_0000 < scaled < 0x1_0000_0000_0000_0000_0000_0000,
{
    proof {
        lemma_scaled_extent_fits(extent as int, times as int);
        lemma_quotient_no_larger(extent * times, per as int);
        lemma_quotient_no_larger(-(extent * times), per as int);
    }
    let product: i128 = extent * (times as i128);
    product / (per as i128)
}

/// Computes whether the height of a drag is kept under the ratio `w : h`.
fn keeps_height(w: u32, h: u32, dx: i128, dy: i128) -> (kept: bool)
    requires
        -0x1_0000_0000_0000_0000 < dx < 0x1_0000_0000_0000_0000,
        -0x1_0000_0000_0000_0000 < dy < 0x1_0000_0000_0000_0000,
    ensures
        kept == anchors_height(w as int, h as int, dx as int, dy as int),
{
    proof {
        lemma_scaled_extent_fits(dy as int, w as int);
        lemma_scaled_extent_fits(dx as int, h as int);
        assert(w * dy == dy * w) by (nonlinear_arith);
    }
    let by_width: i128 = dy * (w as i128);
    let by_height: i128 = dx * (h as i128);
    if dy > 0 {
        by_width > by_height
    } else if dy < 0 {
        by_width < by_height
    } else {
        dx < 0
    }
}

/// Computes the end of a dragged area from its start and the pointer.
pub fn constrain(ratio: Option<(u32, u32)>, start: Position<i64>, current: Position<i64>) -> (end:
    Position<i64>)
    ensures
        end == area_end(ratio, start, current),
{
    match ratio {
        Some((w, h)) => {
            if w == 0 || h == 0 {
                return current;
            }
            let dx: i128 = current.x as i128 - start.x as i128;
            let dy: i128 = current.y as i128 - start.y as i128;
            if keeps_height(w, h, dx, dy) {
                let width = scale(dy, w, h);
                Position { x: saturate(start.x as i128 + width), y: current.y }
            } else {
                let height = scale(dx, h, w);
                Position { x: current.x, y: saturate(start.y as i128 + height) }
            }
        },
        None => current,
    }
}

/// Finds the first of the boxes that contains the point.
pub fn snap(boxes: &Vec<BoxInfo>, point: Position<i64>) -> (hit: Option<BoxInfo>)
    ensures
        hit == first_hit(boxes@, point),
{
    let mut i: usize = 0;
    assert(boxes@.skip(0) == boxes@);
    while i < boxes.len()
        invariant
            i <= boxes@.len(),
            first_hit(boxes@, point) == first_hit(boxes@.skip(i as int), point),
        decreases boxes@.len() - i,
    {
        let ghost rest = boxes@.skip(i as int);
        assert(rest[0] == boxes@[i as int]);
        if boxes[i].encloses(point) {
            return Some(boxes[i]);
        }
        assert(rest.drop_first() == boxes@.skip(i + 1));
        i = i + 1;
    }
    None
}

impl WaysipState {
    /// The phase the session is in.
    pub open spec fn phase(self) -> SessionPhase {
        if !self.running {
            SessionPhase::Terminated
        } else if self.start_pos is Some {
            SessionPhase::Anchored
        } else {
            SessionPhase::Idle
        }
    }

    /// Reports the phase the session is in.
    pub fn get_phase(&self) -> (phase: SessionPhase)
        ensures
            phase == self.phase(),
    {
        if !self.running {
            SessionPhase::Terminated
        } else if self.start_pos.is_some() {
            SessionPhase::Anchored
        } else {
            SessionPhase::Idle
        }
    }

    /// A position local to the display at `index`, moved into the space
    /// shared by all displays.
    pub open spec fn global(self, index: int, surface_x: i32, surface_y: i32) -> Position<i64> {
        Position {
            x: (surface_x + 256 * self.wloutput_infos@[index].offset().x) as i64,
            y: (surface_y + 256 * self.wloutput_infos@[index].offset().y) as i64,
        }
    }

    /// The session after the pointer has entered the overlay carried by
    /// `surface` at a local position: the display of that overlay is the
    /// current one and the pointer stands at the position, moved by the
    /// display's offset. A surface that carries no overlay changes nothing.
    pub open spec fn after_enter(self, surface: ObjectId, surface_x: i32, surface_y: i32)
        -> WaysipState {
        match self.carrier_index(surface) {
            Some(i) => WaysipState {
                current_screen: i as usize,
                current_pos: self.global(i, surface_x, surface_y),
                ..self
            },
            None => self,
        }
    }

    /// What entering the overlay carried by `surface` asks for: a cursor,
    /// negotiated where the compositor offers that and themed otherwise, and
    /// a repaint.
    pub open spec fn enter_reaction(self, surface: ObjectId) -> Reaction {
        match self.carrier_index(surface) {
            Some(i) => Reaction {
                cursor: Some(
                    if self.cursor_manager is Some {
                        CursorRequest::Shape
                    } else {
                        CursorRequest::Themed {
                            surface: self.wl_surfaces@[i].cursor_surface,
                            image: self.wl_surfaces@[i].cursor_buffer->Some_0,
                        }
                    },
                ),
                commit: true,
            },
            None => idle(),
        }
    }

    /// The shortest time between two repaints asked for by motion, where
    /// motion asks for repaints at all.
    pub open spec fn redraw_interval(self) -> Option<u64> {
        match self.selection_type {
            SelectionType::Area => Some(AREA_REDRAW_INTERVAL),
            SelectionType::PredefinedBoxes => Some(BOX_REDRAW_INTERVAL),
            _ => None,
        }
    }

    /// Whether motion at `now` asks for a repaint.
    pub open spec fn motion_repaints(self, now: u64) -> bool {
        self.running && match self.redraw_interval() {
            Some(interval) => due(self.last_redraw, now, interval),
            None => false,
        }
    }

    /// The session after the pointer has moved to a position local to the
    /// current display.
    ///
    /// A session that has ended ignores motion. Otherwise the pointer stands
    /// at the position, moved by the display's offset, and the selection is
    /// open-ended again, except that
    /// - while an area is dragged, the selection ends at the pointer, or
    ///   where the aspect ratio puts its end; a selection that has no start
    ///   yet is taken to start at the pointer;
    /// - while boxes are picked and the pointer is in one, the selection is
    ///   the first such box.
    /// When motion asks for a repaint, the time of the request is recorded.
    pub open spec fn after_motion(self, surface_x: i32, surface_y: i32, now: u64) -> WaysipState {
        let current = self.global(self.current_screen as int, surface_x, surface_y);
        let last_redraw = if self.motion_repaints(now) {
            Some(now)
        } else {
            self.last_redraw
        };
        if !self.running {
            self
        } else {
            match self.selection_type {
                SelectionType::Area => {
                    let start = match self.start_pos {
                        Some(start) => start,
                        None => current,
                    };
                    WaysipState {
                        current_pos: current,
                        end_pos: Some(area_end(self.aspect_ratio, start, current)),
                        last_redraw,
                        ..self
                    }
                },
                SelectionType::PredefinedBoxes => match first_hit(self.candidates(), current) {
                    Some(hit) => WaysipState {
                        current_pos: current,
                        start_pos: Some(hit.start()),
                        end_pos: Some(hit.end()),
                        last_redraw,
                        ..self
                    },
                    None => WaysipState {
                        current_pos: current,
                        end_pos: None,
                        last_redraw,
                        ..self
                    },
                },
                _ => WaysipState { current_pos: current, end_pos: None, ..self },
            }
        }
    }

    /// What motion at `now` asks for.
    pub open spec fn motion_reaction(self, now: u64) -> Reaction {
        Reaction { cursor: None, commit: self.motion_repaints(now) }
    }

    /// Whether a box that was snapped to has fixed the end of the selection:
    /// boxes are picked and the selection has an end.
    pub open spec fn snapped(self) -> bool {
        self.selection_type == SelectionType::PredefinedBoxes && self.end_pos is Some
    }

    /// The session after a button event.
    ///
    /// A press anchors the selection at the pointer, unless boxes are
    /// picked; where a point or a display is selected it also ends the
    /// selection there and the session with it. A release ends the selection
    /// at the pointer, unless a box that was snapped to has fixed its end
    /// already, and always ends the session.
    pub open spec fn after_button(self, state: ButtonState) -> WaysipState {
        match state {
            ButtonState::Pressed => match self.selection_type {
                SelectionType::PredefinedBoxes => self,
                SelectionType::Area => WaysipState {
                    start_pos: Some(self.current_pos),
                    ..self
                },
                _ => WaysipState {
                    start_pos: Some(self.current_pos),
                    end_pos: Some(self.current_pos),
                    running: false,
                    ..self
                },
            },
            ButtonState::Released => WaysipState {
                end_pos: if self.snapped() {
                    self.end_pos
                } else {
                    Some(self.current_pos)
                },
                running: false,
                ..self
            },
            ButtonState::Other => self,
        }
    }

    /// The session after a key was pressed or released: the cancel key ends
    /// the session and discards the selection, so that there is no result.
    /// Any other key changes nothing.
    pub open spec fn after_key(self, key: u32) -> WaysipState {
        if key == CANCEL_KEY {
            WaysipState { running: false, start_pos: None, end_pos: None, ..self }
        } else {
            self
        }
    }

    /// The session after any event of the pointer.
    pub open spec fn after_pointer(self, event: PointerEvent, now: u64) -> WaysipState {
        match event {
            PointerEvent::Enter { surface, surface_x, surface_y } => self.after_enter(
                surface,
                surface_x,
                surface_y,
            ),
            PointerEvent::Motion { surface_x, surface_y } => self.after_motion(
                surface_x,
                surface_y,
                now,
            ),
            PointerEvent::Button { state } => self.after_button(state),
            PointerEvent::Other => self,
        }
    }

    /// What any event of the pointer asks for.
    pub open spec fn pointer_reaction(self, event: PointerEvent, now: u64) -> Reaction {
        match event {
            PointerEvent::Enter { surface, surface_x, surface_y } => self.enter_reaction(surface),
            PointerEvent::Motion { surface_x, surface_y } => self.motion_reaction(now),
            PointerEvent::Button { state } => repaint(),
            PointerEvent::Other => idle(),
        }
    }

    /// Moves a position local to the display at `index` into the space
    /// shared by all displays.
    pub fn to_global(&self, index: usize, surface_x: i32, surface_y: i32) -> (position: Position<
        i64,
    >)
        requires
            self.has_geometry(index as int),
        ensures
            position == self.global(index as int, surface_x, surface_y),
    {
        let offset = self.wloutput_infos[index].xdg_output_info.as_ref().unwrap().start_position;
        Position {
            x: surface_x as i64 + 256 * (offset.x as i64),
            y: surface_y as i64 + 256 * (offset.y as i64),
        }
    }

    /// Handles the pointer entering a surface.
    pub fn pointer_enter(&mut self, surface: ObjectId, surface_x: i32, surface_y: i32) -> (reaction:
        Reaction)
        requires
            old(self).wf(),
        ensures
            *final(self) == old(self).after_enter(surface, surface_x, surface_y),
            reaction == old(self).enter_reaction(surface),
            final(self).wf(),
    {
        match self.find_carrier(surface) {
            Some(i) => {
                self.current_screen = i;
                self.current_pos = self.to_global(i, surface_x, surface_y);
                let cursor = if self.cursor_manager.is_some() {
                    CursorRequest::Shape
                } else {
                    CursorRequest::Themed {
                        surface: self.wl_surfaces[i].cursor_surface,
                        image: self.wl_surfaces[i].cursor_buffer.unwrap(),
                    }
                };
                Reaction { cursor: Some(cursor), commit: true }
            },
            None => Reaction { cursor: None, commit: false },
        }
    }

    /// Decides whether motion at `now` asks for a repaint, and records the
    /// request if so.
    fn throttle(&mut self, now: u64, interval: u64) -> (repaint: bool)
        ensures
            repaint == due(old(self).last_redraw, now, interval),
            *final(self) == (WaysipState {
                last_redraw: if repaint {
                    Some(now)
                } else {
                    old(self).last_redraw
                },
                ..*old(self)
            }),
    {
        let repaint = match self.last_redraw {
            Some(then) => now >= then && now - then >= interval,
            None => true,
        };
        if repaint {
            self.last_redraw = Some(now);
        }
        repaint
    }

    /// Handles the pointer moving on the current display.
    pub fn pointer_motion(&mut self, surface_x: i32, surface_y: i32, now: u64) -> (reaction:
        Reaction)
        requires
            old(self).wf(),
            old(self).running ==> old(self).shown(),
        ensures
            *final(self) == old(self).after_motion(surface_x, surface_y, now),
            reaction == old(self).motion_reaction(now),
            final(self).wf(),
    {
        if !self.running {
            return Reaction { cursor: None, commit: false };
        }
        let current = self.to_global(self.current_screen, surface_x, surface_y);
        self.current_pos = current;
        self.end_pos = None;
        match self.selection_type {
            SelectionType::Area => {
                let start = match self.start_pos {
                    Some(start) => start,
                    None => current,
                };
                self.end_pos = Some(constrain(self.aspect_ratio, start, current));
                let commit = self.throttle(now, AREA_REDRAW_INTERVAL);
                Reaction { cursor: None, commit }
            },
            SelectionType::PredefinedBoxes => {
                let hit = match &self.predefined_boxes {
                    Some(boxes) => snap(boxes, current),
                    None => None,
                };
                match hit {
                    Some(found) => {
                        self.start_pos = Some(Position { x: found.start_x, y: found.start_y });
                        self.end_pos = Some(Position { x: found.end_x, y: found.end_y });
                    },
                    None => {},
                }
                let commit = self.throttle(now, BOX_REDRAW_INTERVAL);
                Reaction { cursor: None, commit }
            },
            _ => Reaction { cursor: None, commit: false },
        }
    }

    /// Handles a change of a pointer button.
    pub fn pointer_button(&mut self, state: ButtonState) -> (reaction: Reaction)
        ensures
            *final(self) == old(self).after_button(state),
            reaction == repaint(),
            old(self).wf() ==> final(self).wf(),
    {
        match state {
            ButtonState::Pressed => {
                if !self.is_predefined_boxes() {
                    self.start_pos = Some(self.current_pos);
                }
                if !self.is_area() && !self.is_predefined_boxes() {
                    self.end_pos = Some(self.current_pos);
                    self.running = false;
                }
            },
            ButtonState::Released => {
                if !(self.is_predefined_boxes() && self.end_pos.is_some()) {
                    self.end_pos = Some(self.current_pos);
                }
                self.running = false;
            },
            ButtonState::Other => {},
        }
        Reaction { cursor: None, commit: true }
    }

    /// Handles a key of the keyboard.
    pub fn key(&mut self, key: u32)
        ensures
            *final(self) == old(self).after_key(key),
            old(self).wf() ==> final(self).wf(),
    {
        if key == CANCEL_KEY {
            self.running = false;
            self.start_pos = None;
            self.end_pos = None;
        }
    }

    /// Handles any event of the pointer.
    pub fn pointer_event(&mut self, event: PointerEvent, now: u64) -> (reaction: Reaction)
        requires
            old(self).wf(),
            event is Motion && old(self).running ==> old(self).shown(),
        ensures
            *final(self) == old(self).after_pointer(event, now),
            reaction == old(self).pointer_reaction(event, now),
            final(self).wf(),
    {
        match event {
            PointerEvent::Enter { surface, surface_x, surface_y } => self.pointer_enter(
                surface,
                surface_x,
                surface_y,
            ),
            PointerEvent::Motion { surface_x, surface_y } => self.pointer_motion(
                surface_x,
                surface_y,
                now,
            ),
            PointerEvent::Button { state } => self.pointer_button(state),
            PointerEvent::Other => Reaction { cursor: None, commit: false },
        }
    }
}

/// Entering a second display after a first makes the second the current
/// one, and every position reported from then on is moved by the offset of
/// the second.
pub proof fn lemma_enter_switches_display(
    state: WaysipState,
    first: ObjectId,
    second: ObjectId,
    first_at: (i32, i32),
    second_at: (i32, i32),
    moved_to: (i32, i32),
    now: u64,
)
    requires
        state.wf(),
        state.running,
        state.carrier_index(first) is Some,
        state.carrier_index(second) is Some,
    ensures
        ({
            let on_first = state.after_enter(first, first_at.0, first_at.1);
            let on_second = on_first.after_enter(second, second_at.0, second_at.1);
            let moved = on_second.after_motion(moved_to.0, moved_to.1, now);
            let index = state.carrier_index(second)->Some_0;
            &&& on_first.current_screen == state.carrier_index(first)->Some_0
            &&& on_second.current_screen == index
            &&& on_second.current_pos == state.global(index, second_at.0, second_at.1)
            &&& moved.current_screen == index
            &&& moved.current_pos == state.global(index, moved_to.0, moved_to.1)
        }),
{
    lemma_first_index(carriers(state.wl_surfaces@), first);
    lemma_first_index(carriers(state.wl_surfaces@), second);
    assert(state.wl_surfaces@.len() == state.wl_surfaces.len());
    let on_first = state.after_enter(first, first_at.0, first_at.1);
    assert(on_first.wl_surfaces == state.wl_surfaces);
    let on_second = on_first.after_enter(second, second_at.0, second_at.1);
    assert(on_second.wloutput_infos == state.wloutput_infos);
}

/// Only entering a surface changes which display is the current one: no
/// other event of the pointer and no key does.
pub proof fn lemma_only_enter_changes_display(
    state: WaysipState,
    event: PointerEvent,
    key: u32,
    now: u64,
)
    ensures
        !(event is Enter) ==> state.after_pointer(event, now).current_screen
            == state.current_screen,
        state.after_key(key).current_screen == state.current_screen,
{
}

/// A session that has ended stays ended, and motion no longer changes it.
pub proof fn lemma_ended_session(state: WaysipState, event: PointerEvent, key: u32, now: u64)
    requires
        !state.running,
    ensures
        !state.after_pointer(event, now).running,
        !state.after_key(key).running,
        event is Motion ==> state.after_pointer(event, now) == state,
{
}

/// The end of a selection is set only in the coordinate space of its start:
/// on motion it is the pointer, the derived end of the locked drag from the
/// start, or the far corner of the box whose near corner is the start.
pub proof fn lemma_motion_pairs_ends(state: WaysipState, at: (i32, i32), now: u64)
    requires
        state.running,
    ensures
        ({
            let next = state.after_motion(at.0, at.1, now);
            let current = state.global(state.current_screen as int, at.0, at.1);
            match state.selection_type {
                SelectionType::Area => next.end_pos == Some(
                    area_end(
                        state.aspect_ratio,
                        if state.start_pos is Some {
                            state.start_pos->Some_0
                        } else {
                            current
                        },
                        current,
                    ),
                ) && next.start_pos == state.start_pos,
                SelectionType::PredefinedBoxes => match first_hit(state.candidates(), current) {
                    Some(hit) => next.start_pos == Some(hit.start()) && next.end_pos == Some(
                        hit.end(),
                    ) && hit.contains(current),
                    None => next.end_pos is None && next.start_pos == state.start_pos,
                },
                _ => next.end_pos is None && next.start_pos == state.start_pos,
            }
        }),
{
    let current = state.global(state.current_screen as int, at.0, at.1);
    lemma_first_hit(state.candidates(), current);
}

/// The cancel key yields no result, whatever was selected before: it ends
/// the session and leaves the selection without a start and without an end.
pub proof fn lemma_cancel_yields_nothing(state: WaysipState)
    ensures
        !state.after_key(CANCEL_KEY).running,
        state.after_key(CANCEL_KEY).start_pos is None,
        state.after_key(CANCEL_KEY).end_pos is None,
        state.after_key(CANCEL_KEY).projected() is None,
{
}

/// The transitions between the phases of a session.
///
/// A release ends the session in every mode, and so does the cancel key. A
/// press ends it where a point or a display is selected; it anchors the
/// selection of an area; and it changes nothing where boxes are picked,
/// whether or not the pointer is in one. A release leaves the start of the
/// selection alone and puts its end at the pointer, unless a box that was
/// snapped to has fixed the end.
pub proof fn lemma_phase_transitions(state: WaysipState)
    ensures
        state.after_button(ButtonState::Released).phase() == SessionPhase::Terminated,
        state.after_key(CANCEL_KEY).phase() == SessionPhase::Terminated,
        state.selection_type == SelectionType::Point || state.selection_type
            == SelectionType::Screen ==> state.after_button(ButtonState::Pressed).phase()
            == SessionPhase::Terminated && state.after_button(ButtonState::Pressed).selected(),
        state.selection_type == SelectionType::Area && state.running ==> state.after_button(
            ButtonState::Pressed,
        ).phase() == SessionPhase::Anchored,
        state.selection_type == SelectionType::PredefinedBoxes ==> state.after_button(
            ButtonState::Pressed,
        ) == state,
        state.after_button(ButtonState::Released).start_pos == state.start_pos,
        state.after_button(ButtonState::Released).end_pos == if state.selection_type
            == SelectionType::PredefinedBoxes && state.end_pos is Some {
            state.end_pos
        } else {
            Some(state.current_pos)
        },
{
}

/// Repaints asked for by motion keep their distance: once motion has asked
/// for a repaint, motion asks for the next one exactly when the interval of
/// the mode has passed. A repaint that was skipped is not made up for; the
/// time of the last request stays as it was.
pub proof fn lemma_throttle(state: WaysipState, first: (i32, i32), asked_at: u64, later: u64)
    requires
        state.running,
        state.redraw_interval() is Some,
        asked_at <= later,
    ensures
        ({
            let moved = state.after_motion(first.0, first.1, asked_at);
            let interval = state.redraw_interval()->Some_0;
            &&& state.motion_repaints(asked_at) ==> moved.last_redraw == Some(asked_at) && (
            moved.motion_repaints(later) <==> later - asked_at >= interval)
            &&& !state.motion_repaints(asked_at) ==> moved.last_redraw == state.last_redraw
        }),
{
}

/// Dragging an area without an aspect ratio: a press, a motion and a
/// release select the rectangle from where the pointer was pressed to where
/// it was moved, on the display the pointer is on.
pub proof fn lemma_area_drag(state: WaysipState, to: (i32, i32), now: u64)
    requires
        state.running,
        state.selection_type == SelectionType::Area,
        !ratio_locks(state.aspect_ratio),
    ensures
        ({
            let released = state.after_button(ButtonState::Pressed).after_motion(
                to.0,
                to.1,
                now,
            ).after_button(ButtonState::Released);
            &&& !released.running
            &&& released.current_screen == state.current_screen
            &&& released.start_pos == Some(state.current_pos)
            &&& released.end_pos == Some(state.global(state.current_screen as int, to.0, to.1))
            &&& released.selected()
        }),
{
}

/// A single click selects a point or a display: the press alone ends the
/// session, with both ends of the selection at the pointer.
pub proof fn lemma_click(state: WaysipState)
    requires
        state.selection_type == SelectionType::Point || state.selection_type
            == SelectionType::Screen,
    ensures
        ({
            let pressed = state.after_button(ButtonState::Pressed);
            &&& !pressed.running
            &&& pressed.start_pos == Some(state.current_pos)
            &&& pressed.end_pos == Some(state.current_pos)
            &&& pressed.current_screen == state.current_screen
        }),
{
}

proof fn lemma_quotient_is_close(n: int, d: int)
    by (nonlinear_arith)
    requires
        d > 0,
    ensures
        -d < quotient_toward_zero(n, d) * d - n < d,
{
    if n >= 0 {
        assert(n == d * (n / d) + n % d && 0 <= n % d < d);
    } else {
        assert(-n == d * ((-n) / d) + (-n) % d && 0 <= (-n) % d < d);
    }
}

/// A locked selection has the aspect ratio it was locked to, as far as whole
/// sub-pixel units allow: where its end is not cut off at the limits of a
/// coordinate, its extents `ex` and `ey` satisfy `ex : ey = w : h` up to the
/// rounding of the derived extent by less than one unit.
pub proof fn lemma_ratio_kept(w: int, h: int, start: Position<i64>, current: Position<i64>)
    requires
        w > 0,
        h > 0,
        i64::MIN <= start.x + quotient_toward_zero((current.y - start.y) * w, h) <= i64::MAX,
        i64::MIN <= start.y + quotient_toward_zero((current.x - start.x) * h, w) <= i64::MAX,
    ensures
        ({
            let end = locked_end(w, h, start, current);
            let ex = end.x - start.x;
            let ey = end.y - start.y;
            if anchors_height(w, h, current.x - start.x, current.y - start.y) {
                ey == current.y - start.y && -h < ex * h - ey * w < h
            } else {
                ex == current.x - start.x && -w < ey * w - ex * h < w
            }
        }),
{
    lemma_quotient_is_close((current.y - start.y) * w, h);
    lemma_quotient_is_close((current.x - start.x) * h, w);
}

} // verus!
