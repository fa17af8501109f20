//! The graphical chooser of an output or a window.
//!
//! The chooser lists the outputs and the windows of the session, one list
//! at a time, and ends when the user picks an entry. This module holds its
//! decisions; windows and widgets are the caller's.

use vstd::prelude::*;

verus! {

/// Handle by which a graphical area selector is started.
#[derive(Debug, Clone, Copy, PartialEq, Eq, Structural)]
pub struct AreaSelectorGUI;

impl AreaSelectorGUI {
    /// A handle to start the selector with.
    pub fn new() -> (selector: Self)
        ensures
            selector == AreaSelectorGUI,
    {
        Self {  }
    }
}

/// What the user picked in the chooser, by its place in the list.
#[derive(Debug, Clone, Copy, PartialEq, Eq, Structural)]
pub enum GUISelection {
    /// The window at this index.
    Toplevel(usize),
    /// The output at this index.
    Output(usize),
    /// Nothing that exists.
    Failed,
}

/// The list that the chooser shows.
#[derive(Debug, Clone, Copy, PartialEq, Eq, Structural)]
pub enum ViewMode {
    Screens,
    Windows,
}

/// What the user did in the chooser.
#[derive(Debug, Clone, Copy, PartialEq, Eq, Structural)]
pub enum Message {
    ShowScreens,
    ShowWindows,
    ScreenSelected(usize),
    WindowSelected(usize),
    /// Anything else; it is ignored.
    Other,
}

/// The state of the chooser.
#[derive(Debug, Clone, Copy, PartialEq, Eq, Structural)]
pub struct IcedSelector {
    /// The list on show.
    pub mode: ViewMode,
    /// Number of windows on offer.
    pub toplevels: usize,
    /// Number of outputs on offer.
    pub outputs: usize,
}

impl IcedSelector {
    /// The chooser after a message.
    pub open spec fn after(self, message: Message) -> IcedSelector {
        match message {
            Message::ShowScreens => IcedSelector { mode: ViewMode::Screens, ..self },
            Message::ShowWindows => IcedSelector { mode: ViewMode::Windows, ..self },
            _ => self,
        }
    }

    /// The selection that a message ends the chooser with, if it ends it:
    /// the entry that was picked, or a failure where there is no such
    /// entry.
    pub open spec fn outcome(self, message: Message) -> Option<GUISelection> {
        match message {
            Message::ScreenSelected(id) => Some(
                if id < self.outputs {
                    GUISelection::Output(id)
                } else {
                    GUISelection::Failed
                },
            ),
            Message::WindowSelected(id) => Some(
                if id < self.toplevels {
                    GUISelection::Toplevel(id)
                } else {
                    GUISelection::Failed
                },
            ),
            _ => None,
        }
    }

    /// A chooser that shows the outputs first.
    pub fn new(toplevels: usize, outputs: usize) -> (selector: Self)
        ensures
            selector == (IcedSelector { mode: ViewMode::Screens, toplevels, outputs }),
    {
        IcedSelector { mode: ViewMode::Screens, toplevels, outputs }
    }

    /// Handles a message. Where the result is a selection, the caller
    /// reports it and closes the chooser.
    pub fn update(&mut self, message: Message) -> (selection: Option<GUISelection>)
        ensures
            *final(self) == old(self).after(message),
            selection == old(self).outcome(message),
    {
        match message {
            Message::ShowScreens => {
                self.mode = ViewMode::Screens;
                None
            },
            Message::ShowWindows => {
                self.mode = ViewMode::Windows;
                None
            },
            Message::ScreenSelected(id) => {
                if id < self.outputs {
                    Some(GUISelection::Output(id))
                } else {
                    Some(GUISelection::Failed)
                }
            },
            Message::WindowSelected(id) => {
                if id < self.toplevels {
                    Some(GUISelection::Toplevel(id))
                } else {
                    Some(GUISelection::Failed)
                }
            },
            Message::Other => None,
        }
    }

    /// The title of the chooser's window.
    pub fn title(&self) -> (title: String)
        ensures
            title@ == "Waysip - Area Selector"@,
    {
        String::from_str("Waysip - Area Selector")
    }

    /// The name of the chooser towards the compositor.
    pub fn namespace() -> (name: String)
        ensures
            name@ == "waysip_area_selector"@,
    {
        String::from_str("waysip_area_selector")
    }
}

} // verus!
