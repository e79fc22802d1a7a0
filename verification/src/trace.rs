//! The controller's behavior over whole event traces, and the laws that
//! hold of every trace.
//!
//! A `Step` is one occurrence the host delivers to the controller; a trace
//! is a sequence of steps. `spec_step` ties each step to the corresponding
//! transition of `crate::lifecycle`, so the proof functions here speak about
//! arbitrarily long runs of the very transitions the executable handlers
//! are proved to implement.

use vstd::prelude::*;

use crate::lifecycle::Actions;
use crate::lifecycle::AcquireResult;
use crate::lifecycle::App;
use crate::lifecycle::UiResponse;
use crate::lifecycle::WindowEventKind;
use crate::lifecycle::relax_due;
use crate::lifecycle::spec_acquire;
use crate::lifecycle::spec_draw_error;
use crate::lifecycle::spec_drop_surface;
use crate::lifecycle::spec_resumed;
use crate::lifecycle::spec_window_event;
use crate::surface::SurfaceCaps;
use crate::surface::Size;
use crate::surface::spec_create;

verus! {

/// One occurrence delivered to the controller.
pub enum Step {
    /// A window event, with the UI's response to it.
    Event(WindowEventKind, Option<UiResponse>),
    /// The outcome of a frame acquisition, with the window's current size.
    Acquire(AcquireResult, Size),
    /// A failure while recording or submitting a frame.
    DrawError,
    /// The platform suspended the application.
    Suspended,
    /// The event loop is exiting.
    Exiting,
    /// The platform resumed the application; the host negotiated the given
    /// capabilities for a window of the given size.
    Resumed(SurfaceCaps, Size),
}

/// The transition one step makes, and the actions it asks of the host.
pub open spec fn spec_step(app: App, step: Step) -> (App, Actions) {
    match step {
        Step::Event(event, ui) => spec_window_event(app, event, ui),
        Step::Acquire(result, window_size) => spec_acquire(app, result, window_size),
        Step::DrawError => spec_draw_error(app),
        Step::Suspended => spec_drop_surface(app),
        Step::Exiting => spec_drop_surface(app),
        Step::Resumed(caps, size) => spec_resumed(app, caps, size),
    }
}

/// The state after a whole trace of steps.
pub open spec fn run_steps(app: App, steps: Seq<Step>) -> App
    decreases steps.len(),
{
    if steps.len() == 0 {
        app
    } else {
        run_steps(spec_step(app, steps[0]).0, steps.drop_first())
    }
}

/// How many frames a trace renders (submits and presents).
pub open spec fn count_renders(app: App, steps: Seq<Step>) -> nat
    decreases steps.len(),
{
    if steps.len() == 0 {
        0
    } else {
        (if spec_step(app, steps[0]).1.render { 1nat } else { 0nat })
            + count_renders(spec_step(app, steps[0]).0, steps.drop_first())
    }
}

/// How many frame acquisitions a trace asks for.
pub open spec fn count_acquires(app: App, steps: Seq<Step>) -> nat
    decreases steps.len(),
{
    if steps.len() == 0 {
        0
    } else {
        (if spec_step(app, steps[0]).1.acquire_frame { 1nat } else { 0nat })
            + count_acquires(spec_step(app, steps[0]).0, steps.drop_first())
    }
}

/// How many times a trace relaxes the window's size constraints.
pub open spec fn count_relaxes(app: App, steps: Seq<Step>) -> nat
    decreases steps.len(),
{
    if steps.len() == 0 {
        0
    } else {
        (if spec_step(app, steps[0]).1.relax_constraints { 1nat } else { 0nat })
            + count_relaxes(spec_step(app, steps[0]).0, steps.drop_first())
    }
}

/// No step of the trace creates a render surface: the trace stays within
/// one surface lifetime (or after its end).
pub open spec fn no_resume(steps: Seq<Step>) -> bool {
    forall|i: int| 0 <= i < steps.len() ==> !(steps[i] is Resumed)
}

/// The one-shot relaxation can never fire again: either no surface is
/// present, or its constraints are already relaxed.
pub open spec fn relax_spent(app: App) -> bool {
    match app.surface {
        None => true,
        Some(s) => s.phase is Relaxed,
    }
}

proof fn lemma_no_resume_drop(steps: Seq<Step>)
    requires
        no_resume(steps),
        steps.len() > 0,
    ensures
        no_resume(steps.drop_first()),
{
    assert forall|i: int| 0 <= i < steps.drop_first().len() implies !(steps.drop_first()[i]
        is Resumed) by {
        assert(steps.drop_first()[i] == steps[i + 1]);
    }
}

/// Law: once the relaxation is spent, no trace that stays within the same
/// surface lifetime ever relaxes the constraints again, and it stays spent.
pub proof fn lemma_relax_spent_stays_spent(app: App, steps: Seq<Step>)
    requires
        relax_spent(app),
        no_resume(steps),
    ensures
        count_relaxes(app, steps) == 0,
        relax_spent(run_steps(app, steps)),
    decreases steps.len(),
{
    if steps.len() > 0 {
        let next = spec_step(app, steps[0]).0;
        assert(!spec_step(app, steps[0]).1.relax_constraints);
        assert(relax_spent(next));
        lemma_no_resume_drop(steps);
        lemma_relax_spent_stays_spent(next, steps.drop_first());
    }
}

/// Law: within one render-surface lifetime, the first-redraw
/// size-relaxation fires at most once, whatever events occur and in
/// whatever number.
pub proof fn lemma_relax_at_most_once(app: App, steps: Seq<Step>)
    requires
        no_resume(steps),
    ensures
        count_relaxes(app, steps) <= 1,
    decreases steps.len(),
{
    if steps.len() > 0 {
        let next = spec_step(app, steps[0]).0;
        lemma_no_resume_drop(steps);
        if spec_step(app, steps[0]).1.relax_constraints {
            assert(relax_spent(next));
            lemma_relax_spent_stays_spent(next, steps.drop_first());
        } else {
            lemma_relax_at_most_once(next, steps.drop_first());
        }
    }
}

/// Law: once a redraw has been serviced while the constraints were still
/// pinned, the very next window event does fire the relaxation, whatever
/// the event is, and the relaxation is spent afterwards.
pub proof fn lemma_redrawn_relaxes_on_next_event(app: App, event: WindowEventKind, ui: Option<UiResponse>)
    requires
        !app.exit_requested,
        relax_due(app),
    ensures
        spec_window_event(app, event, ui).1.relax_constraints,
        relax_spent(spec_window_event(app, event, ui).0),
{
}

/// Law: once loop exit has been requested, it stays requested, and no
/// trace of further events acquires or renders a single frame.
pub proof fn lemma_exit_stops_frames(app: App, steps: Seq<Step>)
    requires
        app.exit_requested,
    ensures
        run_steps(app, steps).exit_requested,
        count_renders(app, steps) == 0,
        count_acquires(app, steps) == 0,
    decreases steps.len(),
{
    if steps.len() > 0 {
        let next = spec_step(app, steps[0]).0;
        assert(!spec_step(app, steps[0]).1.render);
        assert(!spec_step(app, steps[0]).1.acquire_frame);
        assert(next.exit_requested);
        lemma_exit_stops_frames(next, steps.drop_first());
    }
}

/// Law: a fatal acquisition error (out of memory, or unspecified) requests
/// loop exit, renders nothing, and no later step renders either.
pub proof fn lemma_fatal_acquire_stops_frames(
    app: App,
    result: AcquireResult,
    window_size: Size,
    steps: Seq<Step>,
)
    requires
        app.surface is Some,
        !app.exit_requested,
        result matches AcquireResult::Failed(e) && (e is OutOfMemory || e is Other),
    ensures
        spec_acquire(app, result, window_size).1.exit,
        !spec_acquire(app, result, window_size).1.render,
        spec_acquire(app, result, window_size).0.exit_requested,
        count_renders(spec_acquire(app, result, window_size).0, steps) == 0,
{
    lemma_exit_stops_frames(spec_acquire(app, result, window_size).0, steps);
}

/// Law: from a state where the relaxation is due (a first frame was just
/// redrawn with the constraints still pinned), a trace that begins with any
/// window event and stays within the surface's lifetime relaxes the
/// constraints exactly once, however many redraws precede or follow.
pub proof fn lemma_relax_exactly_once(app: App, steps: Seq<Step>)
    requires
        no_resume(steps),
        steps.len() > 0,
        steps[0] is Event,
        !app.exit_requested,
        relax_due(app),
    ensures
        count_relaxes(app, steps) == 1,
{
    assert(spec_step(app, steps[0]).1.relax_constraints);
    assert(relax_spent(spec_step(app, steps[0]).0));
    lemma_no_resume_drop(steps);
    lemma_relax_spent_stays_spent(spec_step(app, steps[0]).0, steps.drop_first());
}

/// Whether the host-supplied inputs of a step are themselves well-formed:
/// a resume carries capabilities with at least one entry per list and a
/// window size with both dimensions non-zero.
pub open spec fn step_inputs_wf(step: Step) -> bool {
    match step {
        Step::Resumed(caps, size) => caps.wf() && size.is_positive(),
        _ => true,
    }
}

/// Every step of the trace carries well-formed inputs.
pub open spec fn all_step_inputs_wf(steps: Seq<Step>) -> bool {
    forall|i: int| 0 <= i < steps.len() ==> step_inputs_wf(steps[i])
}

/// Law: the application invariant — any present surface has its size
/// mirroring its configuration, both dimensions non-zero, and the fixed
/// frame-latency hint — holds in every state of every trace whose inputs
/// are well-formed.
pub proof fn lemma_wf_preserved(app: App, steps: Seq<Step>)
    requires
        app.wf(),
        all_step_inputs_wf(steps),
    ensures
        run_steps(app, steps).wf(),
    decreases steps.len(),
{
    if steps.len() > 0 {
        let next = spec_step(app, steps[0]).0;
        assert(next.wf());
        assert forall|i: int| 0 <= i < steps.drop_first().len() implies step_inputs_wf(
            steps.drop_first()[i],
        ) by {
            assert(steps.drop_first()[i] == steps[i + 1]);
        }
        lemma_wf_preserved(next, steps.drop_first());
    }
}

/// Law: once the render surface is gone, no trace without a resume ever
/// brings one back.
pub proof fn lemma_no_surface_stays_gone(app: App, steps: Seq<Step>)
    requires
        app.surface is None,
        no_resume(steps),
    ensures
        run_steps(app, steps).surface is None,
    decreases steps.len(),
{
    if steps.len() > 0 {
        let next = spec_step(app, steps[0]).0;
        assert(next.surface is None);
        lemma_no_resume_drop(steps);
        lemma_no_surface_stays_gone(next, steps.drop_first());
    }
}

/// Law: the surface's texture format is chosen once at creation and never
/// changes — after any trace within the surface's lifetime, a still-present
/// surface carries the format it started with.
pub proof fn lemma_format_never_changes(app: App, steps: Seq<Step>)
    requires
        no_resume(steps),
        app.surface is Some,
    ensures
        run_steps(app, steps).surface matches Some(s2) ==> s2.config.format
            == app.surface->Some_0.config.format,
    decreases steps.len(),
{
    if steps.len() > 0 {
        let next = spec_step(app, steps[0]).0;
        lemma_no_resume_drop(steps);
        if next.surface is Some {
            assert(next.surface->Some_0.config.format == app.surface->Some_0.config.format);
            lemma_format_never_changes(next, steps.drop_first());
        } else {
            lemma_no_surface_stays_gone(next, steps.drop_first());
        }
    }
}

/// Law: a `suspended` or `exiting` step always leaves no render surface
/// present, and a `resumed` step from that state always installs a fresh
/// one, pinned and sized as negotiated.
pub proof fn lemma_suspend_then_resume(app: App, caps: SurfaceCaps, size: Size)
    ensures
        spec_drop_surface(app).0.surface is None,
        spec_resumed(spec_drop_surface(app).0, caps, size).0.surface == Some(
            spec_create(caps, size),
        ),
{
}

} // verus!
