//! The render surface model: one window's drawable surface, its pixel size
//! and its configuration, and the rules by which the configuration is chosen
//! at creation and reapplied on resize.

use vstd::prelude::*;

verus! {

/// A size in physical pixels.
#[derive(Clone, Copy, PartialEq, Eq, Structural, Debug)]
pub struct Size {
    pub width: u32,
    pub height: u32,
}

impl Size {
    /// Both dimensions are non-zero: the window is neither minimized nor hidden.
    pub open spec fn is_positive(self) -> bool {
        self.width > 0 && self.height > 0
    }

    pub fn new(width: u32, height: u32) -> (r: Size)
        ensures
            r.width == width,
            r.height == height,
    {
        Size { width, height }
    }
}

/// A surface texture format, reduced to what the core reads of it: an
/// identifying code and whether the format is color-corrected (sRGB).
#[derive(Clone, Copy, PartialEq, Eq, Structural, Debug)]
pub struct TextureFormat {
    pub code: u32,
    pub srgb: bool,
}

/// What the drawable surface reports it supports, in the order the platform
/// reported it: texture formats, presentation modes and alpha modes, the two
/// latter reduced to identifying codes.
#[derive(Clone, PartialEq, Eq, Debug)]
pub struct SurfaceCaps {
    pub formats: Vec<TextureFormat>,
    pub present_modes: Vec<u32>,
    pub alpha_modes: Vec<u32>,
}

impl SurfaceCaps {
    /// A surface compatible with some adapter reports at least one entry in
    /// each list.
    pub open spec fn wf(self) -> bool {
        self.formats@.len() > 0 && self.present_modes@.len() > 0 && self.alpha_modes@.len() > 0
    }
}

/// The first non-sRGB (linear) format of the list, if any.
pub open spec fn first_linear(formats: Seq<TextureFormat>) -> Option<TextureFormat>
    decreases formats.len(),
{
    if formats.len() == 0 {
        None
    } else if !formats[0].srgb {
        Some(formats[0])
    } else {
        first_linear(formats.drop_first())
    }
}

/// The format the surface is configured with: the first non-color-corrected
/// (linear) format if one is offered, else the first reported format.
pub open spec fn chosen_format(formats: Seq<TextureFormat>) -> TextureFormat
    recommends
        formats.len() > 0,
{
    match first_linear(formats) {
        Some(f) => f,
        None => formats[0],
    }
}

/// The drawable surface's configuration. The usage is always render
/// attachment and the view-format list always empty, so neither is recorded.
#[derive(Clone, Copy, PartialEq, Eq, Structural, Debug)]
pub struct SurfaceConfig {
    pub format: TextureFormat,
    pub width: u32,
    pub height: u32,
    pub present_mode: u32,
    pub alpha_mode: u32,
    /// Desired maximum frame latency; fixed at 2.
    pub frame_latency: u32,
}

/// The one-shot first-redraw size-relaxation state machine. While the phase
/// is `Pinned`, the window's min/max size constraints are still pinned to the
/// fixed startup size.
#[derive(Clone, Copy, PartialEq, Eq, Structural, Debug)]
pub enum ConstraintPhase {
    /// No frame has been redrawn yet; constraints are pinned.
    Pinned,
    /// A frame has been redrawn; the relaxation is due on the next event.
    Redrawn,
    /// The constraints have been relaxed to unbounded; this is final.
    Relaxed,
}

/// The model of one window's render surface: its current pixel size, its
/// surface configuration, and the first-redraw relaxation phase.
#[derive(Clone, Copy, PartialEq, Eq, Structural, Debug)]
pub struct RenderSurface {
    pub size: Size,
    pub config: SurfaceConfig,
    pub phase: ConstraintPhase,
}

/// The surface model built at creation time, as a value: the format is the
/// first linear one (else the first reported), presentation and alpha modes
/// are the first reported, the frame-latency hint is 2, and the relaxation
/// phase starts pinned.
pub open spec fn spec_create(caps: SurfaceCaps, size: Size) -> RenderSurface {
    RenderSurface {
        size,
        config: SurfaceConfig {
            format: chosen_format(caps.formats@),
            width: size.width,
            height: size.height,
            present_mode: caps.present_modes@[0],
            alpha_mode: caps.alpha_modes@[0],
            frame_latency: 2,
        },
        phase: ConstraintPhase::Pinned,
    }
}

impl RenderSurface {
    /// Size always mirrors the configuration, both dimensions are non-zero,
    /// and the frame-latency hint is fixed at 2.
    pub open spec fn wf(self) -> bool {
        &&& self.size.width == self.config.width
        &&& self.size.height == self.config.height
        &&& self.size.is_positive()
        &&& self.config.frame_latency == 2
    }

    /// The configuration after a resize to `new_size`: unchanged when either
    /// dimension is zero, else updated to the new size.
    pub open spec fn spec_reconfigure(self, new_size: Size) -> RenderSurface {
        if new_size.is_positive() {
            RenderSurface {
                size: new_size,
                config: SurfaceConfig { width: new_size.width, height: new_size.height, ..self.config },
                ..self
            }
        } else {
            self
        }
    }

    /// Builds the surface model at creation time from the reported
    /// capabilities and the window's current pixel size: the format is the
    /// first linear one (else the first reported), presentation and alpha
    /// modes are the first reported, and the frame-latency hint is 2.
    pub fn create(caps: &SurfaceCaps, size: Size) -> (r: RenderSurface)
        requires
            caps.wf(),
            size.is_positive(),
        ensures
            r == spec_create(*caps, size),
            r.wf(),
            r.size == size,
            r.config.format == chosen_format(caps.formats@),
            r.config.present_mode == caps.present_modes@[0],
            r.config.alpha_mode == caps.alpha_modes@[0],
            r.config.frame_latency == 2,
            r.phase is Pinned,
    {
        let format = select_format(&caps.formats);
        let config = SurfaceConfig {
            format,
            width: size.width,
            height: size.height,
            present_mode: caps.present_modes[0],
            alpha_mode: caps.alpha_modes[0],
            frame_latency: 2,
        };
        RenderSurface { size, config, phase: ConstraintPhase::Pinned }
    }

    /// Reapplies the configuration at a new size. A resize to a zero
    /// dimension (minimized or hidden window) leaves everything unchanged.
    /// Returns whether the configuration changed and must be reapplied to
    /// the drawable surface.
    pub fn reconfigure(&mut self, new_size: Size) -> (applied: bool)
        requires
            old(self).wf(),
        ensures
            final(self).wf(),
            *final(self) == old(self).spec_reconfigure(new_size),
            applied == new_size.is_positive(),
            applied ==> final(self).size == new_size && final(self).config.width == new_size.width
                && final(self).config.height == new_size.height,
            !applied ==> *final(self) == *old(self),
            final(self).config.format == old(self).config.format,
            final(self).config.present_mode == old(self).config.present_mode,
            final(self).config.alpha_mode == old(self).config.alpha_mode,
            final(self).config.frame_latency == old(self).config.frame_latency,
            final(self).phase == old(self).phase,
    {
        if new_size.width > 0 && new_size.height > 0 {
            self.size = new_size;
            self.config.width = new_size.width;
            self.config.height = new_size.height;
            true
        } else {
            false
        }
    }
}

/// Law: reconfiguring is idempotent — applying the same size twice leaves
/// the surface exactly as applying it once does.
pub proof fn lemma_reconfigure_idempotent(s: RenderSurface, new_size: Size)
    ensures
        s.spec_reconfigure(new_size).spec_reconfigure(new_size) == s.spec_reconfigure(new_size),
{
}

/// Picks the surface format: the first non-sRGB (linear) format of the
/// reported list, or the first reported format when every one is sRGB.
pub fn select_format(formats: &Vec<TextureFormat>) -> (r: TextureFormat)
    requires
        formats@.len() > 0,
    ensures
        r == chosen_format(formats@),
{
    let ghost all = formats@;
    proof {
        assert(all.skip(0) =~= all);
    }
    let mut i: usize = 0;
    while i < formats.len()
        invariant
            0 <= i <= all.len(),
            formats@ == all,
            all.len() > 0,
            forall|j: int| 0 <= j < i ==> all[j].srgb,
            first_linear(all) == first_linear(all.skip(i as int)),
        decreases formats.len() - i,
    {
        if !formats[i].srgb {
            proof {
                assert(all.skip(i as int)[0] == all[i as int]);
                assert(first_linear(all.skip(i as int)) == Some(all[i as int]));
            }
            return formats[i];
        }
        proof {
            let rest = all.skip(i as int);
            assert(rest[0] == all[i as int]);
            assert(rest.drop_first() =~= all.skip(i as int + 1));
        }
        i = i + 1;
    }
    proof {
        assert(all.skip(i as int).len() == 0);
        assert(first_linear(all) is None);
    }
    formats[0]
}

/// The largest texture dimension the surface may use: the smaller of the
/// adapter's reported limit and the requested limit profile's.
pub fn clamped_max_texture_dim(adapter_limit: u32, requested_limit: u32) -> (r: u32)
    ensures
        r == if adapter_limit <= requested_limit { adapter_limit } else { requested_limit },
        r <= adapter_limit,
        r <= requested_limit,
{
    if adapter_limit <= requested_limit {
        adapter_limit
    } else {
        requested_limit
    }
}

} // verus!
