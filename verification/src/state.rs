//! The data of a selection session: displays, overlay surfaces, the pointer
//! and the selection in progress.

use vstd::prelude::*;

use crate::fixed::{pixel_of, magnitude, to_pixels, wide_to_pixels};
use crate::utils::{Position, Size, Style};

verus! {

/// Identity of a protocol object, as the compositor connection numbers it.
pub type ObjectId = u32;

/// What the user is asked to select.
#[derive(Debug, Clone, Copy, PartialEq, Eq, Structural)]
pub enum SelectionType {
    /// A rectangle dragged with the pointer.
    Area,
    /// A single point.
    Point,
    /// A whole display.
    Screen,
    /// One of the candidate rectangles supplied by the caller.
    PredefinedBoxes,
}

impl Default for SelectionType {
    fn default() -> (kind: Self)
        ensures
            kind == SelectionType::Area,
    {
        SelectionType::Area
    }
}

/// Logical geometry of a display, filled in field by field as the
/// compositor reports it.
#[derive(Debug, Clone, PartialEq, Eq)]
pub struct ZXdgOutputInfo {
    /// The object that reports this geometry.
    pub zxdg_output: ObjectId,
    /// Logical size.
    pub size: Size,
    /// Logical position of the top-left corner.
    pub start_position: Position,
    pub name: String,
    pub description: String,
}

impl ZXdgOutputInfo {
    /// Geometry of which nothing has been reported yet.
    pub fn new(zxdgoutput: ObjectId) -> (info: Self)
        ensures
            info.zxdg_output == zxdgoutput,
            info.size == (Size { width: 0i32, height: 0i32 }),
            info.start_position == (Position { x: 0i32, y: 0i32 }),
            info.name@ == Seq::<char>::empty(),
            info.description@ == Seq::<char>::empty(),
    {
        Self {
            zxdg_output: zxdgoutput,
            size: Size { width: 0, height: 0 },
            start_position: Position { x: 0, y: 0 },
            name: String::new(),
            description: String::new(),
        }
    }
}

/// A display known to the session.
#[derive(Debug, Clone, PartialEq, Eq)]
pub struct WlOutputInfo {
    /// The display object.
    pub output: ObjectId,
    pub description: String,
    pub name: String,
    /// Size of the current video mode, in physical pixels.
    pub size: Size,
    /// Logical geometry, present once the display has been attached to the
    /// geometry extension.
    pub xdg_output_info: Option<ZXdgOutputInfo>,
}

impl WlOutputInfo {
    /// A display of which only the identity is known.
    pub fn new(output: ObjectId) -> (info: Self)
        ensures
            info.output == output,
            info.description@ == Seq::<char>::empty(),
            info.name@ == Seq::<char>::empty(),
            info.size == (Size { width: 0i32, height: 0i32 }),
            info.xdg_output_info is None,
    {
        Self {
            output,
            description: String::new(),
            name: String::new(),
            size: Size { width: 0, height: 0 },
            xdg_output_info: None,
        }
    }

    /// Whether logical geometry has been attached.
    pub open spec fn has_geometry(self) -> bool {
        self.xdg_output_info is Some
    }

    /// The logical position of the display; meaningful once geometry is
    /// attached.
    pub open spec fn offset(self) -> Position {
        self.xdg_output_info->Some_0.start_position
    }

    /// The metadata snapshot of this display.
    pub open spec fn screen_info(self) -> ScreenInfo {
        ScreenInfo {
            position: self.xdg_output_info->Some_0.start_position,
            screen_size: self.xdg_output_info->Some_0.size,
            wl_output: self.output,
            output_size: self.size,
            name: self.name,
            description: self.description,
        }
    }

    /// Takes a snapshot of the display's metadata.
    pub fn get_screen_info(&self) -> (info: ScreenInfo)
        requires
            self.has_geometry(),
        ensures
            info == self.screen_info(),
    {
        let xdg = self.xdg_output_info.as_ref().unwrap();
        ScreenInfo {
            position: xdg.start_position,
            screen_size: xdg.size,
            wl_output: self.output,
            output_size: self.size,
            name: self.name.clone(),
            description: self.description.clone(),
        }
    }

    /// The display object.
    pub fn get_output(&self) -> (output: ObjectId)
        ensures
            output == self.output,
    {
        self.output
    }

    /// The size of the current video mode.
    pub fn get_size(&self) -> (size: Size)
        ensures
            size == self.size,
    {
        self.size
    }

    /// The name of the display.
    pub fn get_name(&self) -> (name: &str)
        ensures
            name@ == self.name@,
    {
        self.name.as_str()
    }

    /// The description of the display.
    pub fn get_description(&self) -> (description: &str)
        ensures
            description@ == self.description@,
    {
        self.description.as_str()
    }
}

/// A snapshot of the display a selection was made on.
#[derive(Debug, PartialEq, Eq)]
pub struct ScreenInfo {
    pub position: Position,
    pub screen_size: Size,
    pub wl_output: ObjectId,
    pub output_size: Size,
    pub name: String,
    pub description: String,
}

impl ScreenInfo {
    /// The display object the snapshot was taken of.
    pub fn get_wloutput(&self) -> (output: ObjectId)
        ensures
            output == self.wl_output,
    {
        self.wl_output
    }

    /// The size of the display's video mode.
    pub fn get_wloutput_size(&self) -> (size: Size)
        ensures
            size == self.output_size,
    {
        self.output_size
    }

    /// The logical size of the display.
    pub fn get_size(&self) -> (size: Size)
        ensures
            size == self.screen_size,
    {
        self.screen_size
    }

    /// The name of the display.
    pub fn get_name(&self) -> (name: &str)
        ensures
            name@ == self.name@,
    {
        self.name.as_str()
    }

    /// The description of the display.
    pub fn get_description(&self) -> (description: &str)
        ensures
            description@ == self.description@,
    {
        self.description.as_str()
    }

    /// The logical position of the display.
    pub fn get_position(&self) -> (position: Position)
        ensures
            position == self.position,
    {
        self.position
    }
}

/// The pointer image of a cursor theme.
#[derive(Debug, Clone, Copy, PartialEq, Eq, Structural)]
pub struct CursorImage {
    /// Horizontal position of the hotspot within the image.
    pub hotspot_x: u32,
    /// Vertical position of the hotspot within the image.
    pub hotspot_y: u32,
}

/// How far an overlay surface has come.
#[derive(Debug, Clone, Copy, PartialEq, Eq, Structural)]
pub enum SurfacePhase {
    /// The current buffer has never been shown.
    Uninitialized,
    /// The current buffer has been shown but not painted on since.
    Committed,
    /// The current buffer has been shown and painted on.
    Ready,
}

/// The overlay that covers one display.
#[derive(Debug, PartialEq, Eq)]
pub struct LayerSurfaceInfo {
    /// The layer-shell role object.
    pub layer: ObjectId,
    /// The surface that carries the overlay.
    pub wl_surface: ObjectId,
    /// The surface that carries a themed cursor.
    pub cursor_surface: ObjectId,
    /// The pixel buffer currently owned by the surface.
    pub buffer: ObjectId,
    /// The themed cursor image, where one was found.
    pub cursor_buffer: Option<CursorImage>,
    /// Bytes per row of the buffer the surface was created with.
    pub stride: i32,
    /// Whether the current buffer has been shown.
    pub inited: bool,
    /// Whether the current buffer has been painted on since it was shown.
    pub drawn: bool,
    /// Whether the compositor holds the current buffer.
    pub buffer_busy: bool,
    /// The style the surface is painted in, fixed at creation.
    pub style: Style,
}

impl LayerSurfaceInfo {
    /// The phase the surface is in.
    pub open spec fn phase(self) -> SurfacePhase {
        if !self.inited {
            SurfacePhase::Uninitialized
        } else if !self.drawn {
            SurfacePhase::Committed
        } else {
            SurfacePhase::Ready
        }
    }

    /// A surface as it is right after creation: its first buffer is attached
    /// for the compositor and nothing has been shown.
    pub fn new(
        layer: ObjectId,
        wl_surface: ObjectId,
        cursor_surface: ObjectId,
        buffer: ObjectId,
        cursor_buffer: Option<CursorImage>,
        stride: i32,
        style: Style,
    ) -> (surface: Self)
        ensures
            surface == (LayerSurfaceInfo {
                layer,
                wl_surface,
                cursor_surface,
                buffer,
                cursor_buffer,
                stride,
                inited: false,
                drawn: false,
                buffer_busy: true,
                style,
            }),
            surface.phase() == SurfacePhase::Uninitialized,
    {
        LayerSurfaceInfo {
            layer,
            wl_surface,
            cursor_surface,
            buffer,
            cursor_buffer,
            stride,
            inited: false,
            drawn: false,
            buffer_busy: true,
            style,
        }
    }

    /// Reports the phase the surface is in.
    pub fn get_phase(&self) -> (phase: SurfacePhase)
        ensures
            phase == self.phase(),
    {
        if !self.inited {
            SurfacePhase::Uninitialized
        } else if !self.drawn {
            SurfacePhase::Committed
        } else {
            SurfacePhase::Ready
        }
    }
}

/// A rectangle in the logical coordinate space shared by all displays, in
/// sub-pixel units.
#[derive(Debug, Clone, Copy, PartialEq, Eq, Structural)]
pub struct BoxInfo {
    pub start_x: i64,
    pub start_y: i64,
    pub end_x: i64,
    pub end_y: i64,
}

impl BoxInfo {
    /// Whether the point lies in the box, edges included.
    pub open spec fn contains(self, point: Position<i64>) -> bool {
        &&& self.start_x <= point.x <= self.end_x
        &&& self.start_y <= point.y <= self.end_y
    }

    /// Tests whether the point lies in the box, edges included.
    pub fn encloses(&self, point: Position<i64>) -> (inside: bool)
        ensures
            inside == self.contains(point),
    {
        point.x >= self.start_x && point.x <= self.end_x && point.y >= self.start_y && point.y
            <= self.end_y
    }

    /// The corner the box starts at.
    pub open spec fn start(self) -> Position<i64> {
        Position { x: self.start_x, y: self.start_y }
    }

    /// The corner the box ends at.
    pub open spec fn end(self) -> Position<i64> {
        Position { x: self.end_x, y: self.end_y }
    }
}

/// The outcome of a selection: the rectangle and the display it was made on.
#[derive(Debug, PartialEq, Eq)]
pub struct AreaInfo {
    pub box_info: BoxInfo,
    pub screen_info: ScreenInfo,
}

impl AreaInfo {
    /// The horizontal extent in sub-pixel units.
    pub open spec fn extent_x(self) -> int {
        magnitude(self.box_info.end_x - self.box_info.start_x)
    }

    /// The vertical extent in sub-pixel units.
    pub open spec fn extent_y(self) -> int {
        magnitude(self.box_info.end_y - self.box_info.start_y)
    }

    /// The left edge in sub-pixel units.
    pub open spec fn left(self) -> int {
        if self.box_info.start_x <= self.box_info.end_x {
            self.box_info.start_x as int
        } else {
            self.box_info.end_x as int
        }
    }

    /// The top edge in sub-pixel units.
    pub open spec fn top(self) -> int {
        if self.box_info.start_y <= self.box_info.end_y {
            self.box_info.start_y as int
        } else {
            self.box_info.end_y as int
        }
    }

    /// The width of the area in whole pixels.
    pub fn width(&self) -> (width: i32)
        ensures
            width == pixel_of(self.extent_x()),
            width >= 0,
    {
        let span: i128 = self.box_info.end_x as i128 - self.box_info.start_x as i128;
        if span < 0 {
            wide_to_pixels(-span)
        } else {
            wide_to_pixels(span)
        }
    }

    /// The height of the area in whole pixels.
    pub fn height(&self) -> (height: i32)
        ensures
            height == pixel_of(self.extent_y()),
            height >= 0,
    {
        let span: i128 = self.box_info.end_y as i128 - self.box_info.start_y as i128;
        if span < 0 {
            wide_to_pixels(-span)
        } else {
            wide_to_pixels(span)
        }
    }

    /// The size of the area in whole pixels.
    pub fn size(&self) -> (size: Size)
        ensures
            size.width == pixel_of(self.extent_x()),
            size.height == pixel_of(self.extent_y()),
    {
        Size { width: self.width(), height: self.height() }
    }

    /// The top-left corner of the area in whole pixels, whichever corner the
    /// selection started at.
    pub fn left_top_point(&self) -> (corner: Position)
        ensures
            corner.x == pixel_of(self.left()),
            corner.y == pixel_of(self.top()),
    {
        let left: i64 = if self.box_info.start_x <= self.box_info.end_x {
            self.box_info.start_x
        } else {
            self.box_info.end_x
        };
        let top: i64 = if self.box_info.start_y <= self.box_info.end_y {
            self.box_info.start_y
        } else {
            self.box_info.end_y
        };
        Position { x: to_pixels(left), y: to_pixels(top) }
    }

    /// The display the selection was made on.
    pub fn selected_screen_info(&self) -> (info: &ScreenInfo)
        ensures
            *info == self.screen_info,
    {
        &self.screen_info
    }
}

/// The live state of a selection session.
#[derive(Debug, PartialEq, Eq)]
pub struct WaysipState {
    /// The displays, in the order they were discovered.
    pub wloutput_infos: Vec<WlOutputInfo>,
    /// Whether the session goes on; cleared by every terminating event.
    pub running: bool,
    /// What is being selected; fixed for the session.
    pub selection_type: SelectionType,
    /// The overlays; the overlay at an index covers the display at that index.
    pub wl_surfaces: Vec<LayerSurfaceInfo>,
    /// Where the pointer is, in the space shared by all displays.
    pub current_pos: Position<i64>,
    /// Where the selection starts, once anchored.
    pub start_pos: Option<Position<i64>>,
    /// Where the selection ends, once known.
    pub end_pos: Option<Position<i64>>,
    /// Index of the display the pointer is on.
    pub current_screen: usize,
    /// The cursor-shape manager, where the compositor offers one.
    pub cursor_manager: Option<ObjectId>,
    /// The candidate rectangles of a session that picks among boxes.
    pub predefined_boxes: Option<Vec<BoxInfo>>,
    /// Width and height of a forced aspect ratio.
    pub aspect_ratio: Option<(u32, u32)>,
    /// When a repaint was last requested on pointer motion, in nanoseconds
    /// of a monotonic clock; `None` before the first.
    pub last_redraw: Option<u64>,
}

/// The first index at which `key` occurs in `keys`.
pub open spec fn first_index(keys: Seq<ObjectId>, key: ObjectId) -> Option<int> {
    keys.index_of_first(key)
}

/// An index holds the first occurrence of a key exactly if the key stands
/// there and nowhere before.
pub proof fn lemma_first_index(keys: Seq<ObjectId>, key: ObjectId)
    ensures
        match first_index(keys, key) {
            Some(i) => 0 <= i < keys.len() && keys[i] == key && forall|j: int|
                0 <= j < i ==> keys[j] != key,
            None => forall|j: int| 0 <= j < keys.len() ==> keys[j] != key,
        },
{
    keys.index_of_first_ensures(key);
}

/// The layer objects of the overlays, in order.
pub open spec fn layers(surfaces: Seq<LayerSurfaceInfo>) -> Seq<ObjectId> {
    surfaces.map_values(|s: LayerSurfaceInfo| s.layer)
}

/// The surface objects of the overlays, in order.
pub open spec fn carriers(surfaces: Seq<LayerSurfaceInfo>) -> Seq<ObjectId> {
    surfaces.map_values(|s: LayerSurfaceInfo| s.wl_surface)
}

/// The buffers of the overlays, in order.
pub open spec fn buffers(surfaces: Seq<LayerSurfaceInfo>) -> Seq<ObjectId> {
    surfaces.map_values(|s: LayerSurfaceInfo| s.buffer)
}

impl WaysipState {
    /// A session that has discovered nothing yet.
    pub fn new(selection_type: SelectionType) -> (state: Self)
        ensures
            state.wloutput_infos@.len() == 0,
            state.running,
            state.selection_type == selection_type,
            state.wl_surfaces@.len() == 0,
            state.current_pos == (Position { x: 0i64, y: 0i64 }),
            state.start_pos is None,
            state.end_pos is None,
            state.current_screen == 0,
            state.cursor_manager is None,
            state.predefined_boxes is None,
            state.aspect_ratio is None,
            state.last_redraw is None,
            state.wf(),
    {
        WaysipState {
            wloutput_infos: Vec::new(),
            running: true,
            selection_type,
            wl_surfaces: Vec::new(),
            current_pos: Position { x: 0, y: 0 },
            start_pos: None,
            end_pos: None,
            current_screen: 0,
            cursor_manager: None,
            predefined_boxes: None,
            aspect_ratio: None,
            last_redraw: None,
        }
    }

    /// Whether the display at `index` exists and has logical geometry.
    pub open spec fn has_geometry(self, index: int) -> bool {
        0 <= index < self.wloutput_infos@.len() && self.wloutput_infos@[index].has_geometry()
    }

    /// Validity of a session: every overlay covers a display whose geometry
    /// is attached, a cursor is at hand for every overlay, and the current
    /// display is one that has an overlay, or the first while there is none.
    pub open spec fn wf(self) -> bool {
        &&& self.wl_surfaces@.len() <= self.wloutput_infos@.len()
        &&& forall|i: int|
            0 <= i < self.wl_surfaces@.len() ==> (#[trigger] self.wloutput_infos@[i]).has_geometry()
        &&& self.cursor_manager is None ==> forall|i: int|
            0 <= i < self.wl_surfaces@.len()
                ==> (#[trigger] self.wl_surfaces@[i]).cursor_buffer is Some
        &&& self.current_screen == 0 || self.current_screen < self.wl_surfaces@.len()
    }

    /// Whether overlays exist, so that the pointer can be on a display.
    pub open spec fn shown(self) -> bool {
        self.wl_surfaces@.len() > 0
    }

    /// Tests the validity of the session.
    pub fn is_wf(&self) -> (valid: bool)
        ensures
            valid == self.wf(),
    {
        if self.wl_surfaces.len() > self.wloutput_infos.len() {
            return false;
        }
        if self.current_screen != 0 && self.current_screen >= self.wl_surfaces.len() {
            return false;
        }
        let mut i: usize = 0;
        while i < self.wl_surfaces.len()
            invariant
                i <= self.wl_surfaces@.len() <= self.wloutput_infos@.len(),
                forall|j: int| 0 <= j < i ==> (#[trigger] self.wloutput_infos@[j]).has_geometry(),
                self.cursor_manager is None ==> forall|j: int|
                    0 <= j < i ==> (#[trigger] self.wl_surfaces@[j]).cursor_buffer is Some,
            decreases self.wl_surfaces@.len() - i,
        {
            if self.wloutput_infos[i].xdg_output_info.is_none() {
                return false;
            }
            if self.cursor_manager.is_none() && self.wl_surfaces[i].cursor_buffer.is_none() {
                return false;
            }
            i = i + 1;
        }
        true
    }

    /// Whether an area is selected.
    pub fn is_area(&self) -> (yes: bool)
        ensures
            yes == (self.selection_type == SelectionType::Area),
    {
        matches!(self.selection_type, SelectionType::Area)
    }

    /// Whether a whole display is selected.
    pub fn is_screen(&self) -> (yes: bool)
        ensures
            yes == (self.selection_type == SelectionType::Screen),
    {
        matches!(self.selection_type, SelectionType::Screen)
    }

    /// Whether one of the candidate boxes is picked.
    pub fn is_predefined_boxes(&self) -> (yes: bool)
        ensures
            yes == (self.selection_type == SelectionType::PredefinedBoxes),
    {
        matches!(self.selection_type, SelectionType::PredefinedBoxes)
    }

    /// Supplies the candidate rectangles.
    pub fn set_boxes(&mut self, boxes: Vec<BoxInfo>)
        ensures
            *final(self) == (WaysipState { predefined_boxes: Some(boxes), ..*old(self) }),
    {
        self.predefined_boxes = Some(boxes);
    }

    /// The candidate rectangles; none where no list was supplied.
    pub open spec fn candidates(self) -> Seq<BoxInfo> {
        match self.predefined_boxes {
            Some(boxes) => boxes@,
            None => Seq::empty(),
        }
    }

    /// The index of the first overlay with this layer object.
    pub open spec fn layer_index(self, layer: ObjectId) -> Option<int> {
        first_index(layers(self.wl_surfaces@), layer)
    }

    /// The index of the first overlay carried by this surface object.
    pub open spec fn carrier_index(self, surface: ObjectId) -> Option<int> {
        first_index(carriers(self.wl_surfaces@), surface)
    }

    /// The index of the first overlay that owns this buffer.
    pub open spec fn buffer_index(self, buffer: ObjectId) -> Option<int> {
        first_index(buffers(self.wl_surfaces@), buffer)
    }

    /// Finds the overlay with this layer object.
    pub fn find_layer(&self, layer: ObjectId) -> (found: Option<usize>)
        ensures
            match found {
                Some(i) => self.layer_index(layer) == Some(i as int) && i < self.wl_surfaces@.len(),
                None => self.layer_index(layer) is None,
            },
    {
        let ghost keys = layers(self.wl_surfaces@);
        let mut i: usize = 0;
        while i < self.wl_surfaces.len()
            invariant
                i <= self.wl_surfaces@.len(),
                keys == layers(self.wl_surfaces@),
                forall|j: int| 0 <= j < i ==> keys[j] != layer,
            decreases self.wl_surfaces@.len() - i,
        {
            if self.wl_surfaces[i].layer == layer {
                proof {
                    assert(keys[i as int] == layer);
                    lemma_first_index(keys, layer);
                }
                return Some(i);
            }
            assert(keys[i as int] != layer);
            i = i + 1;
        }
        proof {
            lemma_first_index(keys, layer);
        }
        None
    }

    /// Finds the overlay carried by this surface object.
    pub fn find_carrier(&self, surface: ObjectId) -> (found: Option<usize>)
        ensures
            match found {
                Some(i) => self.carrier_index(surface) == Some(i as int) && i
                    < self.wl_surfaces@.len(),
                None => self.carrier_index(surface) is None,
            },
    {
        let ghost keys = carriers(self.wl_surfaces@);
        let mut i: usize = 0;
        while i < self.wl_surfaces.len()
            invariant
                i <= self.wl_surfaces@.len(),
                keys == carriers(self.wl_surfaces@),
                forall|j: int| 0 <= j < i ==> keys[j] != surface,
            decreases self.wl_surfaces@.len() - i,
        {
            if self.wl_surfaces[i].wl_surface == surface {
                proof {
                    assert(keys[i as int] == surface);
                    lemma_first_index(keys, surface);
                }
                return Some(i);
            }
            assert(keys[i as int] != surface);
            i = i + 1;
        }
        proof {
            lemma_first_index(keys, surface);
        }
        None
    }

    /// Finds the overlay that owns this buffer.
    pub fn find_buffer(&self, buffer: ObjectId) -> (found: Option<usize>)
        ensures
            match found {
                Some(i) => self.buffer_index(buffer) == Some(i as int) && i
                    < self.wl_surfaces@.len(),
                None => self.buffer_index(buffer) is None,
            },
    {
        let ghost keys = buffers(self.wl_surfaces@);
        let mut i: usize = 0;
        while i < self.wl_surfaces.len()
            invariant
                i <= self.wl_surfaces@.len(),
                keys == buffers(self.wl_surfaces@),
                forall|j: int| 0 <= j < i ==> keys[j] != buffer,
            decreases self.wl_surfaces@.len() - i,
        {
            if self.wl_surfaces[i].buffer == buffer {
                proof {
                    assert(keys[i as int] == buffer);
                    lemma_first_index(keys, buffer);
                }
                return Some(i);
            }
            assert(keys[i as int] != buffer);
            i = i + 1;
        }
        proof {
            lemma_first_index(keys, buffer);
        }
        None
    }

    /// Whether a result exists: both ends of the selection are set.
    pub open spec fn selected(self) -> bool {
        self.start_pos is Some && self.end_pos is Some
    }

    /// The result of the session as it stands.
    pub open spec fn projected(self) -> Option<AreaInfo> {
        if self.selected() {
            Some(
                AreaInfo {
                    box_info: BoxInfo {
                        start_x: self.start_pos->Some_0.x,
                        start_y: self.start_pos->Some_0.y,
                        end_x: self.end_pos->Some_0.x,
                        end_y: self.end_pos->Some_0.y,
                    },
                    screen_info: self.wloutput_infos@[self.current_screen as int].screen_info(),
                },
            )
        } else {
            None
        }
    }

    /// Projects the session onto its result: the rectangle between the two
    /// ends of the selection and a snapshot of the display the pointer is
    /// on. There is no result unless both ends are set.
    pub fn area_info(&self) -> (result: Option<AreaInfo>)
        requires
            self.selected() ==> self.has_geometry(self.current_screen as int),
        ensures
            result == self.projected(),
            result is Some <==> self.selected(),
    {
        if self.start_pos.is_none() || self.end_pos.is_none() {
            return None;
        }
        let start = self.start_pos.unwrap();
        let end = self.end_pos.unwrap();
        Some(
            AreaInfo {
                box_info: BoxInfo {
                    start_x: start.x,
                    start_y: start.y,
                    end_x: end.x,
                    end_y: end.y,
                },
                screen_info: self.wloutput_infos[self.current_screen].get_screen_info(),
            },
        )
    }
}

/// The projection of an area does not depend on which of its corners the
/// selection started at: with the corners exchanged, the top-left corner and
/// the extent are the same.
pub proof fn lemma_area_symmetric(area: AreaInfo, mirrored: AreaInfo)
    requires
        mirrored.box_info.start_x == area.box_info.end_x,
        mirrored.box_info.start_y == area.box_info.end_y,
        mirrored.box_info.end_x == area.box_info.start_x,
        mirrored.box_info.end_y == area.box_info.start_y,
    ensures
        mirrored.left() == area.left(),
        mirrored.top() == area.top(),
        mirrored.extent_x() == area.extent_x(),
        mirrored.extent_y() == area.extent_y(),
{
}

/// The corners of the projected area are the two ends of the selection, and
/// the display is the current one.
pub proof fn lemma_projection(state: WaysipState)
    requires
        state.selected(),
    ensures
        state.projected() matches Some(area) && area.box_info.start_x
            == state.start_pos->Some_0.x && area.box_info.start_y == state.start_pos->Some_0.y
            && area.box_info.end_x == state.end_pos->Some_0.x && area.box_info.end_y
            == state.end_pos->Some_0.y && area.screen_info
            == state.wloutput_infos@[state.current_screen as int].screen_info(),
{
}

} // verus!
