//! Core logic of a windowed GPU viewer: the render-surface lifecycle and
//! frame-composition state machine.
//!
//! The library holds the decisions the viewer makes — how the drawable
//! surface is configured and reconfigured, how window lifecycle events are
//! dispatched, how surface-acquisition failures are handled, and what one
//! composed frame consists of. The platform work itself (the window, the GPU
//! device, the immediate-mode UI) is performed by the host program around the
//! library, which feeds events in as plain values and carries the returned
//! actions out.

use vstd::prelude::*;

pub mod compositor;
pub mod lifecycle;
pub mod surface;
pub mod trace;

use crate::surface::Size;

verus! {

/// Fixed initial window width in physical pixels.
pub const WINDOW_WIDTH: u32 = 1280;

/// Fixed initial window height in physical pixels.
pub const WINDOW_HEIGHT: u32 = 720;

/// Startup configuration: an optional path to a file to view.
///
/// The path is accepted but not consumed by the core; it is reserved for a
/// future loader collaborator.
pub struct StartupArgs {
    pub file: Option<String>,
}

impl StartupArgs {
    /// An empty configuration: no file to view.
    pub fn new() -> (r: StartupArgs)
        ensures
            r.file is None,
    {
        StartupArgs { file: None }
    }
}

/// The attributes the window is created with.
#[derive(Clone, Copy, PartialEq, Eq, Structural, Debug)]
pub struct WindowAttrs {
    pub visible: bool,
    pub size: Size,
    pub min_size: Option<Size>,
    pub max_size: Option<Size>,
}

/// The attributes of the freshly created window: visible, at the fixed
/// startup size, with the min and max inner size pinned to that same size
/// until the first frame has been redrawn.
pub fn startup_window_attrs() -> (r: WindowAttrs)
    ensures
        r.visible,
        r.size == (Size { width: WINDOW_WIDTH, height: WINDOW_HEIGHT }),
        r.size.is_positive(),
        r.min_size == Some(r.size),
        r.max_size == Some(r.size),
{
    let size = Size { width: WINDOW_WIDTH, height: WINDOW_HEIGHT };
    WindowAttrs { visible: true, size, min_size: Some(size), max_size: Some(size) }
}

} // verus!
