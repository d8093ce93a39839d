//! Overlay lifecycle controller: the visibility state machine that the host
//! event loop drives.
//!
//! The host owns a single overlay window for the process lifetime and runs
//! the OS event dispatch loop. On every wakeup it hands the controller an
//! event — a close request, or an idle tick carrying the latest probe
//! result — performs the returned action on the window, and waits for the
//! next event. The controller itself never touches the window; it only
//! decides.

use vstd::prelude::*;

verus! {

/// Whether the overlay window is shown; mirrors the OS-reported state.
#[derive(Clone, Copy, Debug, PartialEq, Eq, Structural)]
pub enum Visibility {
    Visible,
    Hidden,
}

/// An event the host event loop hands to the controller.
#[derive(Clone, Copy, Debug, PartialEq, Eq, Structural)]
pub enum OverlayEvent {
    /// The window system asked the main window to close.
    CloseRequested,
    /// An idle wakeup; `target_running` is what the process probe reported
    /// on this tick.
    IdleTick { target_running: bool },
}

/// What the host must do to the window after a step.
#[derive(Clone, Copy, Debug, PartialEq, Eq, Structural)]
pub enum OverlayAction {
    /// No window call at all.
    DoNothing,
    /// Re-run placement for the current work area, then show the window.
    ShowAndPlace,
    /// Hide the window; placement is not recomputed.
    HideWindow,
    /// Leave the event loop; the process then exits cleanly, and no further
    /// probe calls are made.
    ExitLoop,
}

/// The controller's whole state: the configuration flag and the current
/// visibility.
#[derive(Clone, Copy, Debug, PartialEq, Eq, Structural)]
pub struct OverlayController {
    /// When true, overlay visibility tracks target-process presence; when
    /// false, the overlay is always visible and idle ticks are a no-op
    /// pass-through.
    pub hide_if_not_running: bool,
    /// The visibility the window currently has.
    pub visibility: Visibility,
}

/// The visibility the overlay should converge to, given the configuration,
/// the latest probe result and the current state.
pub open spec fn spec_desired_visibility(
    hide_if_not_running: bool,
    target_running: bool,
    current: Visibility,
) -> Visibility {
    if !hide_if_not_running {
        current
    } else if target_running {
        Visibility::Visible
    } else {
        Visibility::Hidden
    }
}

/// The visibility the overlay starts in, from the single probe made at
/// startup.
pub open spec fn spec_initial_visibility(
    hide_if_not_running: bool,
    target_running: bool,
) -> Visibility {
    if !hide_if_not_running || target_running {
        Visibility::Visible
    } else {
        Visibility::Hidden
    }
}

/// One step of the state machine: next state and the window call it demands.
pub open spec fn spec_step(c: OverlayController, ev: OverlayEvent) -> (OverlayController, OverlayAction) {
    match ev {
        OverlayEvent::CloseRequested => (c, OverlayAction::ExitLoop),
        OverlayEvent::IdleTick { target_running } => {
            let desired = spec_desired_visibility(c.hide_if_not_running, target_running, c.visibility);
            if desired == c.visibility {
                (c, OverlayAction::DoNothing)
            } else if desired == Visibility::Visible {
                (OverlayController { visibility: Visibility::Visible, ..c }, OverlayAction::ShowAndPlace)
            } else {
                (OverlayController { visibility: Visibility::Hidden, ..c }, OverlayAction::HideWindow)
            }
        },
    }
}

/// The controller state after a whole sequence of idle ticks with the given
/// probe results, earliest first.
pub open spec fn spec_run_ticks(c: OverlayController, probes: Seq<bool>) -> OverlayController
    decreases probes.len(),
{
    if probes.len() == 0 {
        c
    } else {
        spec_run_ticks(
            spec_step(c, OverlayEvent::IdleTick { target_running: probes[0] }).0,
            probes.drop_first(),
        )
    }
}

impl OverlayController {
    /// A controller as startup makes it: one synchronous probe fixes the
    /// initial visibility, and the configuration never changes afterwards.
    pub fn new(hide_if_not_running: bool, target_running: bool) -> (c: Self)
        ensures
            c.hide_if_not_running == hide_if_not_running,
            c.visibility == spec_initial_visibility(hide_if_not_running, target_running),
    {
        let visibility = if !hide_if_not_running || target_running {
            Visibility::Visible
        } else {
            Visibility::Hidden
        };
        OverlayController { hide_if_not_running, visibility }
    }

    /// Whether an idle wakeup should probe at all: probing serves only the
    /// hide-if-not-running mode, so the host skips the OS query otherwise.
    pub fn wants_probe(&self) -> (r: bool)
        ensures
            r == self.hide_if_not_running,
    {
        self.hide_if_not_running
    }

    /// One step: advances the state and says what to do to the window.
    pub fn handle_event(&mut self, ev: OverlayEvent) -> (a: OverlayAction)
        ensures
            (*final(self), a) == spec_step(*old(self), ev),
    {
        match ev {
            OverlayEvent::CloseRequested => OverlayAction::ExitLoop,
            OverlayEvent::IdleTick { target_running } => {
                if !self.hide_if_not_running {
                    OverlayAction::DoNothing
                } else {
                    match (self.visibility, target_running) {
                        (Visibility::Hidden, true) => {
                            self.visibility = Visibility::Visible;
                            OverlayAction::ShowAndPlace
                        },
                        (Visibility::Visible, false) => {
                            self.visibility = Visibility::Hidden;
                            OverlayAction::HideWindow
                        },
                        _ => OverlayAction::DoNothing,
                    }
                }
            },
        }
    }
}

/// A step never changes the configuration flag.
pub proof fn lemma_step_keeps_config(c: OverlayController, ev: OverlayEvent)
    ensures
        spec_step(c, ev).0.hide_if_not_running == c.hide_if_not_running,
{
}

/// Convergence while tracking: with hide-if-not-running enabled, after any
/// nonempty sequence of idle ticks the visibility equals what the most
/// recent probe reported — the window converges within one tick.
pub proof fn lemma_convergence_tracking(c: OverlayController, probes: Seq<bool>)
    requires
        c.hide_if_not_running,
        probes.len() > 0,
    ensures
        spec_run_ticks(c, probes).visibility == (if probes.last() {
            Visibility::Visible
        } else {
            Visibility::Hidden
        }),
    decreases probes.len(),
{
    let c1 = spec_step(c, OverlayEvent::IdleTick { target_running: probes[0] }).0;
    if probes.len() == 1 {
        assert(spec_run_ticks(c1, probes.drop_first()) == c1);
    } else {
        lemma_convergence_tracking(c1, probes.drop_first());
        assert(probes.drop_first().last() == probes.last());
    }
}

/// Convergence while not tracking: with hide-if-not-running disabled, a
/// controller that is visible stays visible through every sequence of idle
/// ticks, whatever the probes report.
pub proof fn lemma_always_visible(c: OverlayController, probes: Seq<bool>)
    requires
        !c.hide_if_not_running,
        c.visibility == Visibility::Visible,
    ensures
        spec_run_ticks(c, probes).visibility == Visibility::Visible,
    decreases probes.len(),
{
    if probes.len() > 0 {
        let c1 = spec_step(c, OverlayEvent::IdleTick { target_running: probes[0] }).0;
        lemma_always_visible(c1, probes.drop_first());
    }
}

/// Idempotence: a tick whose desired visibility is the one the overlay
/// already has changes nothing and demands no window call — no redundant
/// placement, show or hide.
pub proof fn lemma_tick_idempotent(c: OverlayController, target_running: bool)
    requires
        spec_desired_visibility(c.hide_if_not_running, target_running, c.visibility)
            == c.visibility,
    ensures
        spec_step(c, OverlayEvent::IdleTick { target_running }) == (c, OverlayAction::DoNothing),
{
}

/// Graceful shutdown: a close request, in any state and under either
/// configuration, ends the loop and touches nothing else.
pub proof fn lemma_close_exits(c: OverlayController)
    ensures
        spec_step(c, OverlayEvent::CloseRequested) == (c, OverlayAction::ExitLoop),
{
}

} // verus!
