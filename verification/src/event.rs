//! What the backend is told and what it asks its caller to do.

use vstd::prelude::*;
use vstd::string::*;
use crate::connector::Resources;
use crate::surface::Frame;

verus! {

/// A change of the session that owns the devices.
#[derive(Clone, Copy, Debug, PartialEq, Eq, Structural)]
pub enum SessionEvent {
    /// The session lost its devices: nothing may touch the hardware.
    PauseSession,
    /// The session has its devices again: everything must be validated anew.
    ActivateSession,
}

/// An event of one device.
#[derive(Clone, Copy, Debug, PartialEq, Eq, Structural)]
pub enum DrmEvent {
    /// The hardware confirmed the page flip of a CRTC.
    VBlank { crtc: u32 },
    /// The device reported an error.
    Error,
}

/// Why a device could not be opened.
#[derive(Clone, Copy, Debug, PartialEq, Eq, Structural)]
pub enum OpenError {
    /// The device file could not be opened.
    Io,
    /// No buffer allocator could be made for the device.
    Allocator,
    /// No rendering context could be made for the device.
    RenderContext,
}

/// What opening a device gave.
#[derive(Debug)]
pub struct OpenedDevice {
    /// The render node of the device's GPU, where it has one.
    pub render_node: Option<u64>,
    /// The canonical path of the device file, where it could be resolved.
    pub canonical_path: Option<String>,
}

/// A hot-plug event, with what was read from the device on its account.
#[derive(Debug)]
pub enum UdevEvent {
    /// A device appeared. It was opened, and its connectors were read if that
    /// was possible.
    Added { device_id: u64, opened: Result<OpenedDevice, OpenError>, resources: Option<Resources> },
    /// A device's connectors changed. They were read anew if that was possible.
    Changed { device_id: u64, resources: Option<Resources> },
    /// A device is gone.
    Removed { device_id: u64 },
}

/// Something the caller is asked to do.
#[derive(Clone, Copy, Debug, PartialEq, Eq, Structural)]
pub enum Action {
    /// Stop reading input.
    SuspendInput,
    /// Read input again.
    ResumeInput,
    /// Stop touching a device.
    PauseDevice { node: u64 },
    /// Take a device into use again.
    ActivateDevice { node: u64 },
    /// Make a GPU's render node known to the renderers.
    AddRenderNode { node: u64 },
    /// Take a GPU's render node away from the renderers.
    RemoveRenderNode { node: u64 },
    /// Let clients hand buffers to this device's GPU directly.
    EnableAcceleration { node: u64 },
    /// Stop clients from handing buffers to this device's GPU directly.
    DisableAcceleration { node: u64 },
    /// Forget what the buffers of a surface hold.
    ResetSurface { node: u64, crtc: u32 },
    /// Draw a frame into the buffer and report how it went. A blank frame
    /// only clears the buffer.
    Draw { node: u64, crtc: u32, frame: Frame, blank: bool },
    /// Ask the hardware to flip to the buffer and to confirm the flip, and
    /// report whether the hardware accepted or refused the request.
    PageFlip { node: u64, crtc: u32, buffer: usize },
    /// Tell the scene that a frame was consumed, so that clients draw the
    /// next. This is asked only once a flip was accepted.
    FrameConsumed { node: u64, crtc: u32 },
    /// Close the device.
    CloseDevice { node: u64 },
}

} // verus!
