//! Interactive screen-region selection for Wayland sessions, as a verified
//! state machine.
//!
//! The library holds the decisions of a selection session: which display the
//! pointer is on, where a selection starts and ends, when an overlay buffer
//! may be replaced, when a repaint is due and what the final rectangle is.
//! Talking to the compositor and rasterising pixels is left to the caller,
//! who feeds events in and carries the requested actions out.
//!
//! Sub-pixel coordinates are fixed-point integers with eight fractional
//! bits, the precision of the Wayland wire format (see [`fixed`]).

mod builder;
pub mod error;
pub mod fixed;
pub mod format;
pub mod geometry;
pub mod gui_selector;
pub mod parse;
pub mod pointer;
pub mod redraw;
pub mod render;
pub mod session;
pub mod state;
pub mod surface;
mod utils;

pub use builder::WaySip;
pub use gui_selector::{AreaSelectorGUI, GUISelection};
pub use state::{AreaInfo, BoxInfo, SelectionType};
pub use utils::{Color, Position, Size, Style};
