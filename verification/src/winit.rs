//! The windowed backend, and the choice between it and the hardware backend.

use vstd::prelude::*;
use vstd::string::*;
use crate::connector::Subpixel;
use crate::frame::{settled, CursorImageStatus, DragIcon};
use crate::mode::OutputMode;
use crate::output::{extent_of, Output, OutputView, PhysicalProperties, Transform};
use crate::state::DrmState;
use crate::surface::SwapBuffersError;

verus! {

/// Refresh rate that the windowed backend advertises, in millihertz.
pub const WINIT_REFRESH: i32 = 60_000;

/// The data of the windowed backend: it has none.
#[derive(Clone, Copy, Debug, PartialEq, Eq, Structural)]
pub struct WinitData;

/// The backend a compositor runs on.
#[derive(Debug)]
pub enum Backend {
    /// A window of another display server.
    Winit(WinitData),
    /// The display hardware.
    Drm(DrmState),
}

/// How the pointer is drawn into the window.
#[derive(Clone, Copy, Debug, PartialEq, Eq, Structural)]
pub struct WinitPointer {
    /// The drag icon to draw at the pointer, if one is alive.
    pub drag_icon: Option<u32>,
    /// The client's surface to draw as the cursor, if there is one.
    pub cursor: Option<u32>,
    /// Whether the window system shows its own cursor.
    pub cursor_visible: bool,
}

/// The plan for the pointer in the window: the drag icon if it is alive, the
/// client's cursor image if it has a live one, and the window system's own
/// cursor otherwise.
pub open spec fn winit_pointer_of(
    drag_icon: Option<DragIcon>,
    status: CursorImageStatus,
    cursor_alive: bool,
) -> WinitPointer {
    WinitPointer {
        drag_icon: match drag_icon {
            Some(icon) => if icon.alive {
                Some(icon.surface)
            } else {
                None
            },
            None => None,
        },
        cursor: match settled(status, cursor_alive) {
            CursorImageStatus::Image { surface } => Some(surface),
            _ => None,
        },
        cursor_visible: !(settled(status, cursor_alive) is Image),
    }
}

/// The mode of the windowed backend's output for a window of the given size.
pub open spec fn winit_mode_of(width: u32, height: u32) -> OutputMode {
    OutputMode { width: extent_of(width), height: extent_of(height), refresh: WINIT_REFRESH }
}

/// The output of the windowed backend for a window of the given size, with
/// the names that stand for the maker and the model of its display.
pub open spec fn winit_output_of(width: u32, height: u32, make: Seq<char>, model: Seq<char>) -> OutputView {
    OutputView {
        name: "winit"@,
        size: (0, 0),
        subpixel: Subpixel::Unknown,
        make,
        model,
        preferred_mode: None,
        current_mode: Some(winit_mode_of(width, height)),
        transform: Transform::Normal,
        scale: 1,
        location: (0, 0),
    }
}

impl WinitData {
    /// Name of the seat of the windowed backend.
    pub fn seat_name(&self) -> (r: String)
        ensures
            r@ == "winit"@,
    {
        String::from_str("winit")
    }
}

impl Backend {
    /// The registry of the hardware backend; the windowed backend has none.
    pub fn drm_state(&self) -> (r: Option<&DrmState>)
        ensures
            r == match self {
                Backend::Winit(_) => None::<&DrmState>,
                Backend::Drm(state) => Some(state),
            },
    {
        match self {
            Backend::Winit(_) => None,
            Backend::Drm(state) => Some(state),
        }
    }

    /// Name of the seat the backend runs on: `winit` for the windowed
    /// backend, the session's seat for the hardware.
    pub fn seat_name(&self, session_seat: &str) -> (r: String)
        ensures
            r@ == match self {
                Backend::Winit(_) => "winit"@,
                Backend::Drm(_) => session_seat@,
            },
    {
        match self {
            Backend::Winit(data) => data.seat_name(),
            Backend::Drm(_) => String::from_str(session_seat),
        }
    }
}

/// The mode of the windowed backend's output: the window's size at sixty
/// frames a second.
pub fn winit_mode(width: u32, height: u32) -> (r: OutputMode)
    ensures
        r == winit_mode_of(width, height),
{
    let (w, h) = crate::output::physical_size(Some((width, height)));
    OutputMode { width: w, height: h, refresh: WINIT_REFRESH }
}

/// Describes the output of the windowed backend: named `winit`, of unknown
/// physical size, running the mode of the window's size. The names of the
/// maker and the model are the caller's.
pub fn winit_output(width: u32, height: u32, make: &str, model: &str) -> (r: Output)
    ensures
        r@ == winit_output_of(width, height, make@, model@),
{
    let physical = PhysicalProperties {
        size: (0, 0),
        subpixel: Subpixel::Unknown,
        make: String::from_str(make),
        model: String::from_str(model),
    };
    let mut output = Output::new(String::from_str("winit"), physical);
    output.change_current_state(Some(winit_mode(width, height)), None, None, None);
    output
}

/// Plans how the pointer is drawn into the window. A cursor image whose
/// surface is gone is replaced by the default pointer first. A live drag
/// icon is drawn. A client's cursor image is drawn in place of the window
/// system's cursor, which is shown otherwise.
pub fn plan_winit_pointer(drag_icon: Option<DragIcon>, status: &mut CursorImageStatus, cursor_alive: bool)
    -> (r: WinitPointer)
    ensures
        r == winit_pointer_of(drag_icon, *old(status), cursor_alive),
        *final(status) == settled(*old(status), cursor_alive),
{
    let icon = match drag_icon {
        Some(icon) => if icon.alive {
            Some(icon.surface)
        } else {
            None
        },
        None => None,
    };
    let reset = match *status {
        CursorImageStatus::Image { .. } => !cursor_alive,
        _ => false,
    };
    if reset {
        *status = CursorImageStatus::Default;
    }
    match *status {
        CursorImageStatus::Image { surface } => WinitPointer {
            drag_icon: icon,
            cursor: Some(surface),
            cursor_visible: false,
        },
        _ => WinitPointer { drag_icon: icon, cursor: None, cursor_visible: true },
    }
}

/// Tells whether the windowed backend goes on after a frame: it stops only
/// when the frame lost the rendering context.
pub fn keeps_running(frame: Result<(), SwapBuffersError>) -> (r: bool)
    ensures
        r == !(frame matches Err(SwapBuffersError::ContextLost(_))),
{
    match frame {
        Err(SwapBuffersError::ContextLost(_)) => false,
        _ => true,
    }
}

/// Tells whether the window shows its own cursor: it does unless a client's
/// image is drawn as the cursor.
pub fn cursor_visible(status: CursorImageStatus) -> (r: bool)
    ensures
        r == !(status is Image),
{
    match status {
        CursorImageStatus::Image { .. } => false,
        _ => true,
    }
}

} // verus!
