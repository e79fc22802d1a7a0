//! The application lifecycle controller: a state machine over window
//! lifecycle events.
//!
//! The application owns at most one render surface. A `resumed` event
//! creates it, `suspended` and `exiting` drop it, window events are
//! dispatched against it: the immediate-mode UI sees every event first, an
//! unclaimed close request terminates the loop, an unclaimed redraw request
//! leads to frame acquisition, an unclaimed resize reconfigures the surface.
//! The host program performs the platform work; each handler returns the
//! `Actions` the host must carry out.

use vstd::prelude::*;

use crate::surface::ConstraintPhase;
use crate::surface::RenderSurface;
use crate::surface::Size;
use crate::surface::SurfaceCaps;
use crate::surface::spec_create;

verus! {

/// A window event, reduced to what the controller decides on. Raw input
/// that only the UI inspects is `Other`.
#[derive(Clone, Copy, PartialEq, Eq, Structural, Debug)]
pub enum WindowEventKind {
    CloseRequested,
    RedrawRequested,
    Resized(Size),
    Other,
}

/// What the UI reported of one forwarded event: whether it claimed the
/// event, and whether it requests a repaint.
#[derive(Clone, Copy, PartialEq, Eq, Structural, Debug)]
pub struct UiResponse {
    pub consumed: bool,
    pub repaint: bool,
}

/// A transient failure or fatal error reported by frame acquisition.
#[derive(Clone, Copy, PartialEq, Eq, Structural, Debug)]
pub enum AcquireError {
    Lost,
    Outdated,
    Timeout,
    OutOfMemory,
    Other,
}

/// The outcome of one frame-acquisition attempt.
#[derive(Clone, Copy, PartialEq, Eq, Structural, Debug)]
pub enum AcquireResult {
    Acquired,
    Failed(AcquireError),
}

/// The platform work one handler call asks the host to perform.
#[derive(Clone, Copy, PartialEq, Eq, Structural, Debug)]
pub struct Actions {
    /// Relax the window's min/max size constraints to unbounded.
    pub relax_constraints: bool,
    /// Terminate the event loop.
    pub exit: bool,
    /// Acquire a frame from the drawable surface and report the outcome.
    pub acquire_frame: bool,
    /// Reapply the (updated) surface configuration to the drawable surface.
    pub apply_config: bool,
    /// Ask the window for another redraw.
    pub request_redraw: bool,
    /// Compose and submit one frame, then present the acquired texture.
    pub render: bool,
}

/// No platform work.
pub open spec fn no_actions() -> Actions {
    Actions {
        relax_constraints: false,
        exit: false,
        acquire_frame: false,
        apply_config: false,
        request_redraw: false,
        render: false,
    }
}

/// Whether the UI claimed the event.
pub open spec fn ui_consumed(ui: Option<UiResponse>) -> bool {
    ui matches Some(r) && r.consumed
}

/// Whether the UI requested a repaint.
pub open spec fn ui_repaint(ui: Option<UiResponse>) -> bool {
    ui matches Some(r) && r.repaint
}

/// The application model: the optional owned render surface, and whether
/// loop termination has been requested.
#[derive(Clone, Copy, PartialEq, Eq, Debug)]
pub struct App {
    pub surface: Option<RenderSurface>,
    pub exit_requested: bool,
}

/// Whether the one-shot relaxation is due: a frame has been redrawn while
/// the constraints were still pinned, and no event has run since.
pub open spec fn relax_due(app: App) -> bool {
    app.surface matches Some(s) && s.phase is Redrawn
}

/// The one-shot relaxation stage run at the start of every window event:
/// if a frame has been redrawn and the constraints are not yet relaxed,
/// relax them now, exactly once.
pub open spec fn spec_relax(app: App) -> (App, bool) {
    match app.surface {
        Some(s) => if s.phase is Redrawn {
            (
                App { surface: Some(RenderSurface { phase: ConstraintPhase::Relaxed, ..s }), ..app },
                true,
            )
        } else {
            (app, false)
        },
        None => (app, false),
    }
}

/// Dispatch of an event the UI did not claim.
pub open spec fn spec_dispatch(app: App, event: WindowEventKind) -> (App, Actions) {
    match event {
        WindowEventKind::CloseRequested => (
            App { exit_requested: true, ..app },
            Actions { exit: true, ..no_actions() },
        ),
        WindowEventKind::RedrawRequested => match app.surface {
            Some(_) => (app, Actions { acquire_frame: true, ..no_actions() }),
            None => (app, no_actions()),
        },
        WindowEventKind::Resized(sz) => match app.surface {
            Some(s) => (
                App { surface: Some(s.spec_reconfigure(sz)), ..app },
                Actions { apply_config: sz.is_positive(), ..no_actions() },
            ),
            None => (app, no_actions()),
        },
        WindowEventKind::Other => (app, no_actions()),
    }
}

/// One window event, whole: nothing is serviced once exit is requested;
/// else the relaxation stage runs first, then unclaimed events are
/// dispatched, and a UI repaint request asks for another redraw.
pub open spec fn spec_window_event(app: App, event: WindowEventKind, ui: Option<UiResponse>) -> (App, Actions) {
    if app.exit_requested {
        (app, no_actions())
    } else {
        let relaxed = spec_relax(app);
        let stepped = if !ui_consumed(ui) {
            spec_dispatch(relaxed.0, event)
        } else {
            (relaxed.0, no_actions())
        };
        (
            stepped.0,
            Actions { relax_constraints: relaxed.1, request_redraw: ui_repaint(ui), ..stepped.1 },
        )
    }
}

/// Records that a redraw has been serviced: arms the one-shot relaxation
/// if it was still pending, and is the identity otherwise.
pub open spec fn spec_mark_redrawn(s: RenderSurface) -> RenderSurface {
    if s.phase is Pinned {
        RenderSurface { phase: ConstraintPhase::Redrawn, ..s }
    } else {
        s
    }
}

/// The acquisition-outcome policy: success renders one frame; `Lost` and
/// `Outdated` reconfigure at the window's current size; `Timeout` does
/// nothing; `OutOfMemory` and `Other` terminate the loop. In every case the
/// redraw is recorded.
pub open spec fn spec_acquire(app: App, result: AcquireResult, window_size: Size) -> (App, Actions) {
    if app.exit_requested {
        (app, no_actions())
    } else {
        match app.surface {
            None => (app, no_actions()),
            Some(s) => {
                let s1 = spec_mark_redrawn(s);
                match result {
                    AcquireResult::Acquired => (
                        App { surface: Some(s1), ..app },
                        Actions { render: true, ..no_actions() },
                    ),
                    AcquireResult::Failed(AcquireError::Lost) | AcquireResult::Failed(AcquireError::Outdated) => (
                        App { surface: Some(s1.spec_reconfigure(window_size)), ..app },
                        Actions { apply_config: window_size.is_positive(), ..no_actions() },
                    ),
                    AcquireResult::Failed(AcquireError::Timeout) => (
                        App { surface: Some(s1), ..app },
                        no_actions(),
                    ),
                    AcquireResult::Failed(AcquireError::OutOfMemory) | AcquireResult::Failed(AcquireError::Other) => (
                        App { surface: Some(s1), exit_requested: true, ..app },
                        Actions { exit: true, ..no_actions() },
                    ),
                }
            },
        }
    }
}

/// A failure while recording or submitting a frame is fatal: the loop is
/// terminated.
pub open spec fn spec_draw_error(app: App) -> (App, Actions) {
    if app.exit_requested {
        (app, no_actions())
    } else {
        (App { exit_requested: true, ..app }, Actions { exit: true, ..no_actions() })
    }
}

/// `suspended` and `exiting` drop the render surface unconditionally: GPU
/// resources must not outlive the window they were bound to.
pub open spec fn spec_drop_surface(app: App) -> (App, Actions) {
    (App { surface: None, ..app }, no_actions())
}

/// `resumed`: a no-op while a surface is present (it must not be created
/// twice), else a fresh surface is installed.
pub open spec fn spec_resumed(app: App, caps: SurfaceCaps, size: Size) -> (App, Actions) {
    match app.surface {
        Some(_) => (app, no_actions()),
        None => (App { surface: Some(spec_create(caps, size)), ..app }, no_actions()),
    }
}

impl App {
    /// A present surface is well-formed.
    pub open spec fn wf(self) -> bool {
        self.surface matches Some(s) ==> s.wf()
    }

    /// The initial application: no surface, loop running.
    pub fn new() -> (r: App)
        ensures
            r.surface is None,
            !r.exit_requested,
            r.wf(),
    {
        App { surface: None, exit_requested: false }
    }

    /// Whether a `resumed` event must create a render surface.
    pub fn needs_surface(&self) -> (r: bool)
        ensures
            r == (self.surface is None),
    {
        self.surface.is_none()
    }

    /// Installs the freshly negotiated render surface on resume.
    pub fn install_surface(&mut self, caps: &SurfaceCaps, size: Size)
        requires
            old(self).wf(),
            old(self).surface is None,
            caps.wf(),
            size.is_positive(),
        ensures
            final(self).wf(),
            *final(self) == spec_resumed(*old(self), *caps, size).0,
            final(self).surface == Some(spec_create(*caps, size)),
            final(self).exit_requested == old(self).exit_requested,
    {
        let s = RenderSurface::create(caps, size);
        self.surface = Some(s);
    }

    /// Handles one window event. The UI response must be present exactly
    /// when a surface is (the UI lives on the surface).
    pub fn window_event(&mut self, event: WindowEventKind, ui: Option<UiResponse>) -> (r: Actions)
        requires
            old(self).wf(),
            ui is Some <==> old(self).surface is Some,
        ensures
            final(self).wf(),
            *final(self) == spec_window_event(*old(self), event, ui).0,
            r == spec_window_event(*old(self), event, ui).1,
            old(self).exit_requested ==> *final(self) == *old(self) && r == no_actions(),
            r.relax_constraints <==> (!old(self).exit_requested && relax_due(*old(self))),
            r.exit <==> (!old(self).exit_requested && !ui_consumed(ui) && event is CloseRequested),
            r.acquire_frame <==> (!old(self).exit_requested && !ui_consumed(ui)
                && event is RedrawRequested && old(self).surface is Some),
            r.request_redraw <==> (!old(self).exit_requested && ui_repaint(ui)),
            !r.render,
            final(self).exit_requested == (old(self).exit_requested || r.exit),
            final(self).surface is Some <==> old(self).surface is Some,
    {
        if self.exit_requested {
            return Actions {
                relax_constraints: false,
                exit: false,
                acquire_frame: false,
                apply_config: false,
                request_redraw: false,
                render: false,
            };
        }

        let mut relax_fired = false;
        match &mut self.surface {
            Some(s) => {
                if s.phase == ConstraintPhase::Redrawn {
                    s.phase = ConstraintPhase::Relaxed;
                    relax_fired = true;
                }
            },
            None => {},
        }

        let consumed = match ui {
            Some(resp) => resp.consumed,
            None => false,
        };
        let repaint = match ui {
            Some(resp) => resp.repaint,
            None => false,
        };

        let mut acts = Actions {
            relax_constraints: relax_fired,
            exit: false,
            acquire_frame: false,
            apply_config: false,
            request_redraw: repaint,
            render: false,
        };

        if !consumed {
            match event {
                WindowEventKind::CloseRequested => {
                    self.exit_requested = true;
                    acts.exit = true;
                },
                WindowEventKind::RedrawRequested => {
                    if self.surface.is_some() {
                        acts.acquire_frame = true;
                    }
                },
                WindowEventKind::Resized(sz) => {
                    match &mut self.surface {
                        Some(s) => {
                            let applied = s.reconfigure(sz);
                            acts.apply_config = applied;
                        },
                        None => {},
                    }
                },
                WindowEventKind::Other => {},
            }
        }

        acts
    }

    /// Applies the acquisition-outcome policy after the host attempted to
    /// acquire a frame; `window_size` is the window's current inner size,
    /// used to reconfigure after a transient loss.
    pub fn handle_acquire(&mut self, result: AcquireResult, window_size: Size) -> (r: Actions)
        requires
            old(self).wf(),
            old(self).surface is Some,
            !old(self).exit_requested,
        ensures
            final(self).wf(),
            *final(self) == spec_acquire(*old(self), result, window_size).0,
            r == spec_acquire(*old(self), result, window_size).1,
            r.render <==> result is Acquired,
            result is Acquired ==> r == (Actions { render: true, ..no_actions() })
                && final(self).surface == Some(spec_mark_redrawn(old(self).surface->Some_0)),
            (result == AcquireResult::Failed(AcquireError::Lost)
                || result == AcquireResult::Failed(AcquireError::Outdated)) ==> !r.exit && !r.render
                && r.apply_config == window_size.is_positive()
                && final(self).surface == Some(
                    spec_mark_redrawn(old(self).surface->Some_0).spec_reconfigure(window_size),
                ),
            result == AcquireResult::Failed(AcquireError::Timeout) ==> r == no_actions()
                && final(self).surface == Some(spec_mark_redrawn(old(self).surface->Some_0)),
            (result == AcquireResult::Failed(AcquireError::OutOfMemory)
                || result == AcquireResult::Failed(AcquireError::Other)) ==> r.exit && !r.render
                && final(self).exit_requested,
            final(self).exit_requested == (old(self).exit_requested || r.exit),
            final(self).surface is Some,
            (final(self).surface->Some_0.phase is Pinned) == false,
    {
        match &mut self.surface {
            Some(s) => {
                if s.phase == ConstraintPhase::Pinned {
                    s.phase = ConstraintPhase::Redrawn;
                }
            },
            None => {},
        }

        match result {
            AcquireResult::Acquired => {
                Actions {
                    relax_constraints: false,
                    exit: false,
                    acquire_frame: false,
                    apply_config: false,
                    request_redraw: false,
                    render: true,
                }
            },
            AcquireResult::Failed(err) => {
                match err {
                    AcquireError::Lost | AcquireError::Outdated => {
                        let mut applied = false;
                        match &mut self.surface {
                            Some(s) => {
                                applied = s.reconfigure(window_size);
                            },
                            None => {},
                        }
                        Actions {
                            relax_constraints: false,
                            exit: false,
                            acquire_frame: false,
                            apply_config: applied,
                            request_redraw: false,
                            render: false,
                        }
                    },
                    AcquireError::Timeout => {
                        Actions {
                            relax_constraints: false,
                            exit: false,
                            acquire_frame: false,
                            apply_config: false,
                            request_redraw: false,
                            render: false,
                        }
                    },
                    AcquireError::OutOfMemory | AcquireError::Other => {
                        self.exit_requested = true;
                        Actions {
                            relax_constraints: false,
                            exit: true,
                            acquire_frame: false,
                            apply_config: false,
                            request_redraw: false,
                            render: false,
                        }
                    },
                }
            },
        }
    }

    /// A failure while recording or submitting a frame terminates the loop.
    pub fn draw_failed(&mut self) -> (r: Actions)
        requires
            old(self).wf(),
            !old(self).exit_requested,
        ensures
            final(self).wf(),
            *final(self) == spec_draw_error(*old(self)).0,
            r == spec_draw_error(*old(self)).1,
            r.exit,
            final(self).exit_requested,
            final(self).surface == old(self).surface,
    {
        self.exit_requested = true;
        Actions {
            relax_constraints: false,
            exit: true,
            acquire_frame: false,
            apply_config: false,
            request_redraw: false,
            render: false,
        }
    }

    /// Drops the render surface on suspend.
    pub fn suspended(&mut self)
        ensures
            final(self).wf(),
            *final(self) == spec_drop_surface(*old(self)).0,
            final(self).surface is None,
            final(self).exit_requested == old(self).exit_requested,
    {
        self.surface = None;
    }

    /// Drops the render surface on application exit.
    pub fn exiting(&mut self)
        ensures
            final(self).wf(),
            *final(self) == spec_drop_surface(*old(self)).0,
            final(self).surface is None,
            final(self).exit_requested == old(self).exit_requested,
    {
        self.surface = None;
    }
}

} // verus!
