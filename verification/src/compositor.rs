//! The frame compositor's plan: what one submitted frame consists of.
//!
//! One frame is one command buffer holding exactly two passes over the same
//! texture view — a clear pass to the fixed dark-gray background, then a UI
//! pass that loads the cleared contents and draws the tessellated UI on top
//! — followed by one submission and one presentation. The GPU recording
//! itself is the host's work; the plan pins its structure.

use vstd::prelude::*;

use crate::surface::RenderSurface;
use crate::surface::Size;

verus! {

/// What a render pass does with the attachment's previous contents.
#[derive(Clone, Copy, PartialEq, Eq, Structural, Debug)]
pub enum PassLoad {
    /// Clear to the fixed dark-gray background color.
    ClearToBackground,
    /// Load the existing contents.
    Load,
}

/// One render pass over the frame's texture view.
#[derive(Clone, Copy, PartialEq, Eq, Structural, Debug)]
pub struct PassPlan {
    pub load: PassLoad,
    /// The pass stores its result.
    pub store: bool,
}

/// The composition of one successful frame.
#[derive(Clone, Copy, PartialEq, Eq, Structural, Debug)]
pub struct FramePlan {
    /// The first pass: clear the whole surface.
    pub clear_pass: PassPlan,
    /// The second pass: draw the UI over the kept contents.
    pub ui_pass: PassPlan,
    /// The UI is tessellated to the surface's current pixel size.
    pub size_in_pixels: Size,
    /// The one command buffer is submitted, then the texture presented.
    pub present: bool,
}

/// Plans one frame for the given surface: exactly one clear pass followed
/// by exactly one UI pass, both storing, sized to the surface, submitted
/// and presented once.
pub fn frame_plan(surface: &RenderSurface) -> (r: FramePlan)
    ensures
        r.clear_pass.load is ClearToBackground,
        r.clear_pass.store,
        r.ui_pass.load is Load,
        r.ui_pass.store,
        r.size_in_pixels == surface.size,
        r.present,
{
    FramePlan {
        clear_pass: PassPlan { load: PassLoad::ClearToBackground, store: true },
        ui_pass: PassPlan { load: PassLoad::Load, store: true },
        size_in_pixels: surface.size,
        present: true,
    }
}

} // verus!
