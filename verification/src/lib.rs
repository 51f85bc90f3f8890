//! Hardware display backend of a Wayland compositor, as verified logic.
//!
//! The crate holds the decisions of the backend: which connector drives which
//! CRTC, which mode an output starts in, when a surface may take a buffer, what
//! a failed frame leads to, and how devices come and go. Every decision is a
//! function from plain values to plain values. The caller performs the
//! hardware work that a decision asks for and reports back what happened.
//!
//! The modules, from the leaves up:
//!
//! - [`mode`], [`connector`], [`output`]: what is read from a device, and the
//!   logical screen made of it.
//! - [`scanner`]: the greedy assignment of connectors to CRTCs.
//! - [`surface`], [`frame`]: the render surface of a CRTC with its ring of
//!   buffers, and what goes into a frame.
//! - [`scheduler`], [`router`]: what a failed frame leads to, and which GPU
//!   draws for which.
//! - [`device`], [`state`], [`event`]: one device, the registry of all
//!   devices, and the events and requests that pass between the registry and
//!   its caller.
//! - [`legacy`]: the commit protocol of the non-atomic mode-setting path.
//! - [`gpu`], [`input`], [`winit`]: choosing the primary GPU, switching
//!   virtual terminals, and the windowed backend.
//! - [`popup`], [`window`], [`data_device`]: popups, windows, and drag and
//!   drop from the compositor.

pub mod connector;
pub mod data_device;
pub mod device;
pub mod event;
pub mod frame;
pub mod gpu;
pub mod input;
pub mod legacy;
pub mod mode;
pub mod output;
pub mod popup;
pub mod router;
pub mod scanner;
pub mod scheduler;
pub mod state;
pub mod surface;
pub mod window;
pub mod winit;
