//! The configuration of a session.

use vstd::prelude::*;

use crate::state::{BoxInfo, SelectionType, WaysipState};
use crate::utils::{Color, Position, Style};

verus! {

/// What a session is started with: the kind of selection, the style of the
/// overlay, and the candidate boxes and the aspect ratio where they apply.
#[derive(Debug, PartialEq, Eq)]
pub struct WaySip {
    pub selection_type: SelectionType,
    pub style: Style,
    pub predefined_boxes: Option<Vec<BoxInfo>>,
    pub aspect_ratio: Option<(u32, u32)>,
}

impl Default for WaySip {
    /// The selection of an area in the default style, with no boxes and no
    /// aspect ratio.
    fn default() -> (config: Self)
        ensures
            config.selection_type == SelectionType::Area,
            config.style.is_default(),
            config.predefined_boxes is None,
            config.aspect_ratio is None,
    {
        WaySip {
            selection_type: SelectionType::Area,
            style: Style::default(),
            predefined_boxes: None,
            aspect_ratio: None,
        }
    }
}

impl WaySip {
    /// The default configuration.
    pub fn new() -> (config: Self)
        ensures
            config.selection_type == SelectionType::Area,
            config.style.is_default(),
            config.predefined_boxes is None,
            config.aspect_ratio is None,
    {
        WaySip {
            selection_type: SelectionType::Area,
            style: Style::default(),
            predefined_boxes: None,
            aspect_ratio: None,
        }
    }

    /// Sets what is to be selected.
    pub fn with_selection_type(self, selection_type: SelectionType) -> (config: Self)
        ensures
            config == (WaySip { selection_type, ..self }),
    {
        let mut config = self;
        config.selection_type = selection_type;
        config
    }

    /// Sets the colour that veils a display outside the selection.
    pub fn with_background_color(self, color: Color) -> (config: Self)
        ensures
            config == (WaySip { style: Style { background_color: color, ..self.style }, ..self }),
    {
        let mut config = self;
        config.style.background_color = color;
        config
    }

    /// Sets the colour that fills the selection.
    pub fn with_foreground_color(self, color: Color) -> (config: Self)
        ensures
            config == (WaySip { style: Style { foreground_color: color, ..self.style }, ..self }),
    {
        let mut config = self;
        config.style.foreground_color = color;
        config
    }

    /// Sets the colour of the selection border and of text.
    pub fn with_border_text_color(self, color: Color) -> (config: Self)
        ensures
            config == (WaySip { style: Style { border_text_color: color, ..self.style }, ..self }),
    {
        let mut config = self;
        config.style.border_text_color = color;
        config
    }

    /// Sets the colour that fills a candidate box.
    pub fn with_box_color(self, color: Color) -> (config: Self)
        ensures
            config == (WaySip { style: Style { box_color: color, ..self.style }, ..self }),
    {
        let mut config = self;
        config.style.box_color = color;
        config
    }

    /// Sets the width of the selection border, in sub-pixel units.
    pub fn with_border_weight(self, border_weight: i64) -> (config: Self)
        ensures
            config == (WaySip { style: Style { border_weight, ..self.style }, ..self }),
    {
        let mut config = self;
        config.style.border_weight = border_weight;
        config
    }

    /// Sets the font size in points.
    pub fn with_font_size(self, font_size: i32) -> (config: Self)
        ensures
            config == (WaySip { style: Style { font_size, ..self.style }, ..self }),
    {
        let mut config = self;
        config.style.font_size = font_size;
        config
    }

    /// Sets the font family.
    pub fn with_font_name(self, font_name: String) -> (config: Self)
        ensures
            config == (WaySip { style: Style { font_name, ..self.style }, ..self }),
    {
        let mut config = self;
        config.style.font_name = font_name;
        config
    }

    /// Supplies the candidate boxes to pick from.
    pub fn with_predefined_boxes(self, boxes: Vec<BoxInfo>) -> (config: Self)
        ensures
            config == (WaySip { predefined_boxes: Some(boxes), ..self }),
    {
        let mut config = self;
        config.predefined_boxes = Some(boxes);
        config
    }

    /// Forces the aspect ratio `width : height` on a dragged area. A ratio
    /// with a part that is zero is kept but locks nothing.
    pub fn with_aspect_ratio(self, width: u32, height: u32) -> (config: Self)
        ensures
            config == (WaySip { aspect_ratio: Some((width, height)), ..self }),
    {
        let mut config = self;
        config.aspect_ratio = Some((width, height));
        config
    }

    /// Begins a session with this configuration: hands out the state of a
    /// session that has discovered nothing yet, and the style for its
    /// overlays.
    pub fn begin(self) -> (session: (WaysipState, Style))
        ensures
            session.0.wloutput_infos@.len() == 0,
            session.0.wl_surfaces@.len() == 0,
            session.0.running,
            session.0.selection_type == self.selection_type,
            session.0.current_pos == (Position { x: 0i64, y: 0i64 }),
            session.0.start_pos is None,
            session.0.end_pos is None,
            session.0.current_screen == 0,
            session.0.cursor_manager is None,
            session.0.predefined_boxes == self.predefined_boxes,
            session.0.aspect_ratio == self.aspect_ratio,
            session.0.last_redraw is None,
            session.0.wf(),
            session.1 == self.style,
    {
        let mut state = WaysipState::new(self.selection_type);
        state.predefined_boxes = self.predefined_boxes;
        state.aspect_ratio = self.aspect_ratio;
        (state, self.style)
    }
}

} // verus!
