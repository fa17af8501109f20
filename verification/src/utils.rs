use vstd::prelude::*;
use vstd::std_specs::convert::FromSpecImpl;

verus! {

/// A point in a two-dimensional coordinate space.
#[derive(Debug, Copy, Clone, PartialEq, Eq)]
pub struct Position<T = i32> {
    pub x: T,
    pub y: T,
}

/// The extent of a rectangle.
#[derive(Debug, Copy, Clone, PartialEq, Eq)]
pub struct Size<T = i32> {
    pub width: T,
    pub height: T,
}

impl<T> From<(T, T)> for Size<T> where T: Copy {
    fn from(value: (T, T)) -> (size: Self) {
        Self { width: value.0, height: value.1 }
    }
}

impl<T> FromSpecImpl<(T, T)> for Size<T> where T: Copy {
    open spec fn obeys_from_spec() -> bool {
        true
    }

    open spec fn from_spec(value: (T, T)) -> Self {
        Size { width: value.0, height: value.1 }
    }
}

/// An RGBA colour with eight bits per channel; 255 is full intensity.
#[derive(Debug, Clone, Copy, PartialEq, Eq, Structural)]
pub struct Color {
    pub r: u8,
    pub g: u8,
    pub b: u8,
    pub a: u8,
}

impl Default for Color {
    /// Half-transparent black.
    fn default() -> (color: Self)
        ensures
            color == (Color { r: 0, g: 0, b: 0, a: 128 }),
    {
        Color { r: 0, g: 0, b: 0, a: 128 }
    }
}

/// How the overlay is painted.
#[derive(Debug, Clone, PartialEq, Eq)]
pub struct Style {
    /// Colour that covers a display outside the selection.
    pub background_color: Color,
    /// Colour that fills the selection.
    pub foreground_color: Color,
    /// Colour of the selection border and of text.
    pub border_text_color: Color,
    /// Colour that fills a candidate box.
    pub box_color: Color,
    /// Width of the selection border, in sub-pixel units.
    pub border_weight: i64,
    /// Font size in points.
    pub font_size: i32,
    /// Font family.
    pub font_name: String,
}

impl Style {
    /// Whether this is the default style: a grey veil and grey boxes, both
    /// half transparent, a clear selection, a black border one pixel wide,
    /// and text in Sans of 12 points.
    pub open spec fn is_default(self) -> bool {
        &&& self.background_color == Color { r: 102, g: 102, b: 102, a: 128 }
        &&& self.foreground_color == Color { r: 0, g: 0, b: 0, a: 0 }
        &&& self.border_text_color == Color { r: 0, g: 0, b: 0, a: 255 }
        &&& self.box_color == Color { r: 102, g: 102, b: 102, a: 128 }
        &&& self.border_weight == 256
        &&& self.font_size == 12
        &&& self.font_name@ == "Sans"@
    }

    /// A copy of this style.
    pub fn duplicate(&self) -> (copy: Style)
        ensures
            copy == *self,
    {
        Style {
            background_color: self.background_color,
            foreground_color: self.foreground_color,
            border_text_color: self.border_text_color,
            box_color: self.box_color,
            border_weight: self.border_weight,
            font_size: self.font_size,
            font_name: self.font_name.clone(),
        }
    }
}

impl Default for Style {
    /// Grey veil, clear selection, black border one pixel wide, 12 pt Sans.
    fn default() -> (style: Self)
        ensures
            style.is_default(),
    {
        Style {
            background_color: Color { r: 102, g: 102, b: 102, a: 128 },
            foreground_color: Color { r: 0, g: 0, b: 0, a: 0 },
            border_text_color: Color { r: 0, g: 0, b: 0, a: 255 },
            box_color: Color { r: 102, g: 102, b: 102, a: 128 },
            border_weight: 256,
            font_size: 12,
            font_name: String::from_str("Sans"),
        }
    }
}

} // verus!
