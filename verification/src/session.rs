//! Setting up a session: what is asked of the compositor, in which order,
//! and which failures are fatal.
//!
//! The caller walks through the [`Step`]s from [`Step::first`], performs
//! each, and hands what came of it to the function that judges it. Nothing
//! is retried: the first error ends the session.

use vstd::prelude::*;

use crate::error::{BindFailure, Capability, WaySipError};
use crate::format::{decimal, push_decimal_nat};
use crate::state::WaysipState;
use crate::utils::Size;

verus! {

/// Size in pixels at which a themed cursor is loaded.
pub const CURSOR_SIZE: u32 = 23;

/// Bit of the pointer in the capabilities of a seat.
pub const SEAT_POINTER: u32 = 1;

/// Bit of the keyboard in the capabilities of a seat.
pub const SEAT_KEYBOARD: u32 = 2;

impl Capability {
    /// The lowest and the highest version of the capability that a session
    /// can work with.
    pub open spec fn version_range(self) -> (u32, u32) {
        match self {
            Capability::Compositor => (1, 5),
            Capability::CursorShape => (1, 1),
            Capability::SharedMemory => (1, 1),
            Capability::Seat => (1, 1),
            Capability::OutputGeometry => (1, 3),
            Capability::LayerShell => (3, 4),
        }
    }

    /// Whether a session cannot do without the capability. Only the
    /// negotiation of the cursor shape is optional: a themed cursor stands
    /// in for it.
    pub open spec fn required(self) -> bool {
        self != Capability::CursorShape
    }

    /// Gives the versions to ask for when the capability is bound.
    pub fn versions(&self) -> (range: (u32, u32))
        ensures
            range == self.version_range(),
            range.0 <= range.1,
    {
        match self {
            Capability::Compositor => (1, 5),
            Capability::CursorShape => (1, 1),
            Capability::SharedMemory => (1, 1),
            Capability::Seat => (1, 1),
            Capability::OutputGeometry => (1, 3),
            Capability::LayerShell => (3, 4),
        }
    }

    /// Tells whether a session cannot do without the capability.
    pub fn is_required(&self) -> (required: bool)
        ensures
            required == self.required(),
    {
        !matches!(self, Capability::CursorShape)
    }
}

/// One step of setting up and running a session.
#[derive(Debug, Clone, Copy, PartialEq, Eq, Structural)]
pub enum Step {
    /// Reach the compositor and list what it offers.
    Connect,
    /// Bind a capability of the compositor.
    Bind(Capability),
    /// Look the cursor up in the theme.
    LoadCursor,
    /// Ask for the displays and wait until the compositor has answered.
    Discover,
    /// Attach logical geometry to every display.
    AttachGeometry,
    /// Wait until the compositor has reported the geometry.
    Synchronize,
    /// Create the overlay of every display.
    CreateSurfaces,
    /// Dispatch events until the session ends.
    Run,
    /// Destroy the overlays and project the result.
    Finish,
}

impl Step {
    /// The place of a step in the order of a session, counted from zero.
    pub open spec fn rank(self) -> nat {
        match self {
            Step::Connect => 0,
            Step::Bind(Capability::Compositor) => 1,
            Step::Bind(Capability::CursorShape) => 2,
            Step::Bind(Capability::SharedMemory) => 3,
            Step::LoadCursor => 4,
            Step::Bind(Capability::Seat) => 5,
            Step::Discover => 6,
            Step::Bind(Capability::OutputGeometry) => 7,
            Step::AttachGeometry => 8,
            Step::Synchronize => 9,
            Step::Bind(Capability::LayerShell) => 10,
            Step::CreateSurfaces => 11,
            Step::Run => 12,
            Step::Finish => 13,
        }
    }

    /// The step a session begins with.
    pub fn first() -> (step: Step)
        ensures
            step.rank() == 0,
    {
        Step::Connect
    }

    /// The step that follows this one; none follows the last.
    pub fn next(self) -> (following: Option<Step>)
        ensures
            match following {
                Some(step) => step.rank() == self.rank() + 1,
                None => self == Step::Finish,
            },
    {
        match self {
            Step::Connect => Some(Step::Bind(Capability::Compositor)),
            Step::Bind(Capability::Compositor) => Some(Step::Bind(Capability::CursorShape)),
            Step::Bind(Capability::CursorShape) => Some(Step::Bind(Capability::SharedMemory)),
            Step::Bind(Capability::SharedMemory) => Some(Step::LoadCursor),
            Step::LoadCursor => Some(Step::Bind(Capability::Seat)),
            Step::Bind(Capability::Seat) => Some(Step::Discover),
            Step::Discover => Some(Step::Bind(Capability::OutputGeometry)),
            Step::Bind(Capability::OutputGeometry) => Some(Step::AttachGeometry),
            Step::AttachGeometry => Some(Step::Synchronize),
            Step::Synchronize => Some(Step::Bind(Capability::LayerShell)),
            Step::Bind(Capability::LayerShell) => Some(Step::CreateSurfaces),
            Step::CreateSurfaces => Some(Step::Run),
            Step::Run => Some(Step::Finish),
            Step::Finish => None,
        }
    }
}

/// The order is a numbering: two steps of the same rank are the same step.
pub proof fn lemma_rank_is_injective(a: Step, b: Step)
    requires
        a.rank() == b.rank(),
    ensures
        a == b,
{
}

/// Geometry is trusted only after two barriers: before any overlay is
/// created the session has waited for the compositor twice, once after
/// asking for the displays and once after attaching geometry to them. The
/// cursor is settled before any overlay is created, too.
pub proof fn lemma_surfaces_come_last()
    ensures
        Step::Connect.rank() < Step::Discover.rank() < Step::AttachGeometry.rank()
            < Step::Synchronize.rank() < Step::CreateSurfaces.rank(),
        Step::LoadCursor.rank() < Step::CreateSurfaces.rank(),
        forall|capability: Capability| #[trigger]
            Step::Bind(capability).rank() < Step::CreateSurfaces.rank(),
        Step::CreateSurfaces.rank() < Step::Run.rank() < Step::Finish.rank(),
{
}

/// What came of binding a capability: whether it is there to be used, or
/// the error that ends the session.
pub open spec fn bind_outcome(capability: Capability, failure: Option<BindFailure>) -> Result<
    bool,
    WaySipError,
> {
    match failure {
        None => Ok(true),
        Some(failure) => if capability.required() {
            Err(WaySipError::NotSupportedProtocol { capability, failure })
        } else {
            Ok(false)
        },
    }
}

/// Judges the attempt to bind a capability. A capability that is missing is
/// fatal if it is required, and the error names it; the optional one is
/// merely reported as absent.
pub fn bound(capability: Capability, failure: Option<BindFailure>) -> (outcome: Result<
    bool,
    WaySipError,
>)
    ensures
        outcome == bind_outcome(capability, failure),
{
    match failure {
        None => Ok(true),
        Some(failure) => {
            if capability.is_required() {
                Err(WaySipError::NotSupportedProtocol { capability, failure })
            } else {
                Ok(false)
            }
        },
    }
}

/// Judges the attempt to reach the compositor: a failure is fatal.
pub fn connected(fault: Option<String>) -> (outcome: Result<(), WaySipError>)
    ensures
        outcome == match fault {
            None => Ok::<(), WaySipError>(()),
            Some(message) => Err(WaySipError::InitFailed(message)),
        },
{
    match fault {
        None => Ok(()),
        Some(message) => Err(WaySipError::InitFailed(message)),
    }
}

/// Judges a wait for the compositor: a fault of the connection is fatal.
pub fn dispatched(fault: Option<String>) -> (outcome: Result<(), WaySipError>)
    ensures
        outcome == match fault {
            None => Ok::<(), WaySipError>(()),
            Some(message) => Err(WaySipError::DispatchError(message)),
        },
{
    match fault {
        None => Ok(()),
        Some(message) => Err(WaySipError::DispatchError(message)),
    }
}

/// Where the cursor of a session comes from.
#[derive(Debug, Clone, Copy, PartialEq, Eq, Structural)]
pub enum CursorSource {
    /// The compositor is asked for the crosshair shape.
    Negotiated,
    /// An image of the cursor theme is shown.
    Themed,
}

/// The names under which the cursor is looked up in the theme, in order of
/// preference.
pub open spec fn themed_names() -> Seq<Seq<char>> {
    seq!["crosshair"@, "left_ptr"@]
}

/// The name to look up in the cursor theme after `failed` names were not
/// found: first the crosshair, then the plain pointer, then none.
pub fn themed_cursor_name(failed: usize) -> (name: Option<&'static str>)
    ensures
        match name {
            Some(name) => failed < themed_names().len() && name@ == themed_names()[failed as int],
            None => failed >= themed_names().len(),
        },
{
    if failed == 0 {
        Some("crosshair")
    } else if failed == 1 {
        Some("left_ptr")
    } else {
        None
    }
}

/// Settles where the cursor comes from. Negotiation is preferred; without
/// it a themed image is needed. With neither the session fails before any
/// overlay is shown.
pub fn cursor_source(negotiated: bool, themed: bool) -> (source: Result<CursorSource, WaySipError>)
    ensures
        source == if negotiated {
            Ok::<CursorSource, WaySipError>(CursorSource::Negotiated)
        } else if themed {
            Ok(CursorSource::Themed)
        } else {
            Err(WaySipError::CursorThemeFetchFailed)
        },
{
    if negotiated {
        Ok(CursorSource::Negotiated)
    } else if themed {
        Ok(CursorSource::Themed)
    } else {
        Err(WaySipError::CursorThemeFetchFailed)
    }
}

/// The input devices to ask a seat for.
#[derive(Debug, Clone, Copy, PartialEq, Eq, Structural)]
pub struct SeatDevices {
    pub keyboard: bool,
    pub pointer: bool,
}

/// Picks the devices to ask a seat for from the capabilities it announces:
/// the keyboard and the pointer, each if the seat has it.
pub fn seat_devices(capabilities: u32) -> (devices: SeatDevices)
    ensures
        devices.keyboard == (capabilities & SEAT_KEYBOARD != 0),
        devices.pointer == (capabilities & SEAT_POINTER != 0),
{
    SeatDevices {
        keyboard: capabilities & SEAT_KEYBOARD != 0,
        pointer: capabilities & SEAT_POINTER != 0,
    }
}

/// What has to be created for the overlay of a display.
#[derive(Debug, PartialEq, Eq)]
pub struct SurfacePlan {
    /// Name of the overlay towards the compositor.
    pub namespace: String,
    /// Width of the overlay and of its buffer in pixels.
    pub width: i32,
    /// Height of the overlay and of its buffer in pixels.
    pub height: i32,
    /// Size of the memory pool in bytes: four for every pixel.
    pub pool_size: i32,
}

/// Whether a display of this logical size can be covered: it has an extent,
/// and a buffer of four bytes per pixel can be described to the compositor.
pub open spec fn coverable(size: Size) -> bool {
    size.width > 0 && size.height > 0 && size.width * size.height * 4 <= i32::MAX
}

/// The name of the overlay at `index` towards the compositor.
pub open spec fn namespace_of(index: int) -> Seq<char> {
    "nobody_"@ + decimal(index)
}

impl WaysipState {
    /// Plans the overlay of the display at `index` from its logical size.
    /// There is no plan for a display that cannot be covered, be it that
    /// its geometry was never reported.
    pub fn surface_plan(&self, index: usize) -> (plan: Option<SurfacePlan>)
        requires
            self.has_geometry(index as int),
        ensures
            ({
                let size = self.wloutput_infos@[index as int].xdg_output_info->Some_0.size;
                match plan {
                    Some(plan) => {
                        &&& coverable(size)
                        &&& plan.namespace@ == namespace_of(index as int)
                        &&& plan.width == size.width
                        &&& plan.height == size.height
                        &&& plan.pool_size == size.width * size.height * 4
                    },
                    None => !coverable(size),
                }
            }),
    {
        let size = self.wloutput_infos[index].xdg_output_info.as_ref().unwrap().size;
        if size.width <= 0 || size.height <= 0 {
            return None;
        }
        assert(size.width * size.height <= 0x4000_0000_0000_0000) by (nonlinear_arith)
            requires
                0 < size.width <= 0x8000_0000,
                0 < size.height <= 0x8000_0000,
        ;
        let pixels: i64 = (size.width as i64) * (size.height as i64);
        if pixels > (i32::MAX as i64) / 4 {
            return None;
        }
        let mut namespace = String::from_str("nobody_");
        proof {
            reveal_strlit("nobody_");
        }
        push_decimal_nat(&mut namespace, index as u64);
        Some(
            SurfacePlan {
                namespace,
                width: size.width,
                height: size.height,
                pool_size: (pixels * 4) as i32,
            },
        )
    }
}

} // verus!
