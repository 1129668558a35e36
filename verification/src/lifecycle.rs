//! The main loop's lifecycle controller, as a verified state machine.
//!
//! The controller owns the run/stop decision: it moves through
//! `Starting -> Running -> Stopping -> Terminated`, absorbs keyboard events,
//! interrupt notifications and render outcomes, and decides the process exit
//! status. The surrounding binary performs the terminal work each transition
//! calls for; every decision is made here.

use vstd::prelude::*;

verus! {

/// Where the lifecycle stands.
#[derive(Debug, Clone, Copy, PartialEq, Eq, Structural)]
pub enum Phase {
    Starting,
    Running,
    Stopping,
    Terminated,
}

/// What one bounded keyboard poll produced.
#[derive(Debug, Clone, Copy, PartialEq, Eq, Structural)]
pub enum InputEvent {
    QuitKey,
    OtherKey,
    NoEvent,
    ReadFailure,
}

/// How one render call ended.
#[derive(Debug, Clone, Copy, PartialEq, Eq, Structural)]
pub enum RenderOutcome {
    Completed,
    IOFailure,
}

/// The lifecycle controller: the current phase, the advisory stop flag, and
/// whether a fatal failure was seen (which decides the exit status).
#[derive(Debug, Clone, Copy, PartialEq, Eq, Structural)]
pub struct Controller {
    pub phase: Phase,
    pub stop_requested: bool,
    pub fatal_error: bool,
}

/// Entering the loop: `Starting` becomes `Running`; nothing else changes.
pub open spec fn spec_begin(c: Controller) -> Controller {
    if c.phase == Phase::Starting {
        Controller { phase: Phase::Running, ..c }
    } else {
        c
    }
}

/// Observing the external interrupt flag: an interrupt requests a stop and
/// nothing more — it never aborts the cycle by itself.
pub open spec fn spec_note_interrupt(c: Controller, interrupted: bool) -> Controller {
    Controller { stop_requested: c.stop_requested || interrupted, ..c }
}

/// Absorbing one keyboard poll: the quit key requests a stop; a failed read
/// is fatal and requests a stop; anything else changes nothing.
pub open spec fn spec_handle_input(c: Controller, e: InputEvent) -> Controller {
    Controller {
        stop_requested: c.stop_requested || e == InputEvent::QuitKey || e == InputEvent::ReadFailure,
        fatal_error: c.fatal_error || e == InputEvent::ReadFailure,
        ..c
    }
}

/// Absorbing one render outcome: a write failure is fatal and requests a
/// stop; a completed frame changes nothing.
pub open spec fn spec_handle_render(c: Controller, r: RenderOutcome) -> Controller {
    Controller {
        stop_requested: c.stop_requested || r == RenderOutcome::IOFailure,
        fatal_error: c.fatal_error || r == RenderOutcome::IOFailure,
        ..c
    }
}

/// The check at an iteration boundary: a running loop that has seen a stop
/// request moves to `Stopping`; otherwise it keeps running.
pub open spec fn spec_iteration_boundary(c: Controller) -> Controller {
    if c.phase == Phase::Running && c.stop_requested {
        Controller { phase: Phase::Stopping, ..c }
    } else {
        c
    }
}

/// Completing shutdown: once the terminal has been restored, `Stopping`
/// becomes `Terminated`.
pub open spec fn spec_finish(c: Controller) -> Controller {
    if c.phase == Phase::Stopping {
        Controller { phase: Phase::Terminated, ..c }
    } else {
        c
    }
}

/// The process exit status: zero for a normal quit, nonzero after a fatal
/// failure.
pub open spec fn spec_exit_code(c: Controller) -> i32 {
    if c.fatal_error {
        1
    } else {
        0
    }
}

/// The phases in the order the lifecycle passes through them.
pub open spec fn phase_rank(p: Phase) -> int {
    match p {
        Phase::Starting => 0,
        Phase::Running => 1,
        Phase::Stopping => 2,
        Phase::Terminated => 3,
    }
}

/// The lifecycle never moves backward: absorbing events leaves the phase
/// unchanged, and every transition either keeps the phase or advances it.
/// In particular nothing leaves `Terminated`, and `Stopping` — the one place
/// where the terminal is restored — can only be entered from `Running` and
/// left for `Terminated`, so restoration is passed through once on the way
/// out.
pub proof fn lemma_phase_never_retreats(
    c: Controller,
    e: InputEvent,
    r: RenderOutcome,
    interrupted: bool,
)
    ensures
        spec_note_interrupt(c, interrupted).phase == c.phase,
        spec_handle_input(c, e).phase == c.phase,
        spec_handle_render(c, r).phase == c.phase,
        phase_rank(spec_begin(c).phase) >= phase_rank(c.phase),
        phase_rank(spec_iteration_boundary(c).phase) >= phase_rank(c.phase),
        phase_rank(spec_finish(c).phase) >= phase_rank(c.phase),
        c.phase == Phase::Terminated ==> spec_begin(c) == c && spec_iteration_boundary(c) == c
            && spec_finish(c) == c,
{
}

/// An interrupt during `Running` sets the stop flag; the next iteration
/// boundary then moves the loop to `Stopping`, shutdown completes in
/// `Terminated`, and — no fatal failure having occurred — the exit status
/// is zero.
pub proof fn lemma_interrupt_shutdown(c: Controller)
    requires
        c.phase == Phase::Running,
        !c.fatal_error,
    ensures
        ({
            let after_interrupt = spec_note_interrupt(c, true);
            let at_boundary = spec_iteration_boundary(after_interrupt);
            let done = spec_finish(at_boundary);
            after_interrupt.stop_requested && after_interrupt.phase == Phase::Running
                && at_boundary.phase == Phase::Stopping && done.phase == Phase::Terminated
                && spec_exit_code(done) == 0
        }),
{
}

/// A render failure during `Running` is fatal: it sets the stop flag, the
/// next iteration boundary moves the loop to `Stopping`, shutdown still
/// completes in `Terminated`, and the exit status is nonzero.
pub proof fn lemma_render_failure_shutdown(c: Controller)
    requires
        c.phase == Phase::Running,
    ensures
        ({
            let after_render = spec_handle_render(c, RenderOutcome::IOFailure);
            let at_boundary = spec_iteration_boundary(after_render);
            let done = spec_finish(at_boundary);
            after_render.stop_requested && after_render.fatal_error && at_boundary.phase
                == Phase::Stopping && done.phase == Phase::Terminated && spec_exit_code(done) != 0
        }),
{
}

impl Controller {
    /// A fresh controller, before the terminal has been acquired.
    pub fn new() -> (c: Controller)
        ensures
            c.phase == Phase::Starting,
            !c.stop_requested,
            !c.fatal_error,
    {
        Controller { phase: Phase::Starting, stop_requested: false, fatal_error: false }
    }

    /// Enter the loop once the terminal has been acquired and the interrupt
    /// handler installed.
    pub fn begin(&mut self)
        requires
            old(self).phase == Phase::Starting,
        ensures
            *final(self) == spec_begin(*old(self)),
            final(self).phase == Phase::Running,
    {
        self.phase = Phase::Running;
    }

    /// Record whether the external interrupt flag has been raised.
    pub fn note_interrupt(&mut self, interrupted: bool)
        ensures
            *final(self) == spec_note_interrupt(*old(self), interrupted),
    {
        if interrupted {
            self.stop_requested = true;
        }
    }

    /// Absorb the outcome of one bounded keyboard poll.
    pub fn handle_input(&mut self, e: InputEvent)
        ensures
            *final(self) == spec_handle_input(*old(self), e),
    {
        match e {
            InputEvent::QuitKey => {
                self.stop_requested = true;
            },
            InputEvent::ReadFailure => {
                self.stop_requested = true;
                self.fatal_error = true;
            },
            InputEvent::OtherKey => {},
            InputEvent::NoEvent => {},
        }
    }

    /// Absorb the outcome of one render call.
    pub fn handle_render(&mut self, r: RenderOutcome)
        ensures
            *final(self) == spec_handle_render(*old(self), r),
    {
        match r {
            RenderOutcome::IOFailure => {
                self.stop_requested = true;
                self.fatal_error = true;
            },
            RenderOutcome::Completed => {},
        }
    }

    /// Check the stop flag at an iteration boundary; the result says whether
    /// the loop runs another cycle.
    pub fn iteration_boundary(&mut self) -> (continue_running: bool)
        requires
            old(self).phase == Phase::Running,
        ensures
            *final(self) == spec_iteration_boundary(*old(self)),
            continue_running == !old(self).stop_requested,
            continue_running ==> final(self).phase == Phase::Running,
            !continue_running ==> final(self).phase == Phase::Stopping,
    {
        if self.stop_requested {
            self.phase = Phase::Stopping;
            false
        } else {
            true
        }
    }

    /// Complete shutdown after the terminal has been restored.
    pub fn finish(&mut self)
        requires
            old(self).phase == Phase::Stopping,
        ensures
            *final(self) == spec_finish(*old(self)),
            final(self).phase == Phase::Terminated,
    {
        self.phase = Phase::Terminated;
    }

    /// The exit status to report once the lifecycle has terminated.
    pub fn exit_code(&self) -> (code: i32)
        requires
            self.phase == Phase::Terminated,
        ensures
            code == spec_exit_code(*self),
            code == 0 <==> !self.fatal_error,
    {
        if self.fatal_error {
            1
        } else {
            0
        }
    }
}

} // verus!
