//! The errors of the library.

use vstd::prelude::*;

verus! {

/// Something the compositor has to offer for a session.
#[derive(Debug, Clone, Copy, PartialEq, Eq, Structural)]
pub enum Capability {
    /// Creation of surfaces.
    Compositor,
    /// Negotiation of the cursor shape.
    CursorShape,
    /// Buffers in shared memory.
    SharedMemory,
    /// Pointer and keyboard input.
    Seat,
    /// Logical geometry of displays.
    OutputGeometry,
    /// Overlays above all windows.
    LayerShell,
}

/// Why a capability could not be bound.
#[derive(Debug, Clone, Copy, PartialEq, Eq, Structural)]
pub enum BindFailure {
    /// The compositor offers the capability in no version that fits.
    UnsupportedVersion,
    /// The compositor does not offer the capability.
    NotPresent,
}

/// Why a session failed.
#[derive(Debug, PartialEq, Eq)]
pub enum WaySipError {
    /// The connection to the compositor could not be set up.
    InitFailed(String),
    /// The connection broke while events were dispatched.
    DispatchError(String),
    /// The compositor lacks a capability that the session requires.
    NotSupportedProtocol { capability: Capability, failure: BindFailure },
    /// No cursor can be shown: the compositor negotiates no shape and the
    /// theme holds no image.
    CursorThemeFetchFailed,
}

/// Why a colour could not be read.
#[derive(Debug, PartialEq, Eq)]
pub enum ColorError {
    /// The text is not eight hexadecimal digits after any leading `#`.
    InvalidColorFormat(String),
}

/// Why the description of a box could not be read.
#[derive(Debug, PartialEq, Eq)]
pub enum BoxInfoError {
    /// The description has no space between position and size.
    InvalidBoxString(String),
    /// The position has no comma between its coordinates.
    InvalidBoxCoordsString(String),
    /// The size has no `x` between width and height.
    InvalidBoxSizeString(String),
}

impl Capability {
    /// The name of the capability.
    pub open spec fn label(self) -> Seq<char> {
        match self {
            Capability::Compositor => "compositor"@,
            Capability::CursorShape => "cursor shape"@,
            Capability::SharedMemory => "shared memory"@,
            Capability::Seat => "seat"@,
            Capability::OutputGeometry => "output geometry"@,
            Capability::LayerShell => "layer shell"@,
        }
    }

    /// Names the capability.
    pub fn name(&self) -> (name: &'static str)
        ensures
            name@ == self.label(),
    {
        match self {
            Capability::Compositor => "compositor",
            Capability::CursorShape => "cursor shape",
            Capability::SharedMemory => "shared memory",
            Capability::Seat => "seat",
            Capability::OutputGeometry => "output geometry",
            Capability::LayerShell => "layer shell",
        }
    }
}

impl WaySipError {
    /// The message of the error.
    pub open spec fn text(self) -> Seq<char> {
        match self {
            WaySipError::InitFailed(_) => "Failed to initialize app state"@,
            WaySipError::DispatchError(_) => "Wayland dispatch failed!"@,
            WaySipError::NotSupportedProtocol { capability, failure } =>
                "Protocol not supported: "@ + capability.label(),
            WaySipError::CursorThemeFetchFailed => "Cannot get cursor"@,
        }
    }

    /// Renders the error as a message; that of a missing capability names
    /// the capability.
    pub fn message(&self) -> (message: String)
        ensures
            message@ == self.text(),
    {
        match self {
            WaySipError::InitFailed(_) => String::from_str("Failed to initialize app state"),
            WaySipError::DispatchError(_) => String::from_str("Wayland dispatch failed!"),
            WaySipError::NotSupportedProtocol { capability, failure } => {
                let mut message = String::from_str("Protocol not supported: ");
                message.append(capability.name());
                message
            },
            WaySipError::CursorThemeFetchFailed => String::from_str("Cannot get cursor"),
        }
    }
}

impl ColorError {
    /// The message of the error.
    pub open spec fn text(self) -> Seq<char> {
        match self {
            ColorError::InvalidColorFormat(given) => "Invalid color format `"@ + given@
                + "`, expected `#rrggbbaa/rrggbbaa`"@,
        }
    }

    /// Renders the error as a message that quotes the text that was given.
    pub fn message(&self) -> (message: String)
        ensures
            message@ == self.text(),
    {
        match self {
            ColorError::InvalidColorFormat(given) => {
                let mut message = String::from_str("Invalid color format `");
                message.append(given.as_str());
                message.append("`, expected `#rrggbbaa/rrggbbaa`");
                message
            },
        }
    }
}

impl BoxInfoError {
    /// The message of the error.
    pub open spec fn text(self) -> Seq<char> {
        match self {
            BoxInfoError::InvalidBoxString(given) => "Invalid string format for Box `"@ + given@
                + "`, expected `x,y WIDTHxHEIGHT`"@,
            BoxInfoError::InvalidBoxCoordsString(given) => "Invalid box coordinates string `"@
                + given@ + "`, expected `x,y`"@,
            BoxInfoError::InvalidBoxSizeString(given) => "Invalid box size string `"@ + given@
                + "`, expected `WIDTHxHEIGHT`"@,
        }
    }

    /// Renders the error as a message that quotes the text that was given.
    pub fn message(&self) -> (message: String)
        ensures
            message@ == self.text(),
    {
        match self {
            BoxInfoError::InvalidBoxString(given) => {
                let mut message = String::from_str("Invalid string format for Box `");
                message.append(given.as_str());
                message.append("`, expected `x,y WIDTHxHEIGHT`");
                message
            },
            BoxInfoError::InvalidBoxCoordsString(given) => {
                let mut message = String::from_str("Invalid box coordinates string `");
                message.append(given.as_str());
                message.append("`, expected `x,y`");
                message
            },
            BoxInfoError::InvalidBoxSizeString(given) => {
                let mut message = String::from_str("Invalid box size string `");
                message.append(given.as_str());
                message.append("`, expected `WIDTHxHEIGHT`");
                message
            },
        }
    }
}

} // verus!
