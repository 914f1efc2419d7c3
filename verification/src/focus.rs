//! Bringing the target window to the foreground.
//!
//! Input goes to the window in front, so the window is activated before
//! every injected event. Activation is asked for in the normal way first;
//! if the platform reports failure, it is forced by attaching to the input
//! processing of the window's thread. A minimized window is restored; any
//! other is shown as it is, so that the rectangle measured at the start of
//! the session stays true. Either way the session then waits for the window
//! to settle.

use vstd::prelude::*;
use crate::driver::{Action, Event, ShowMode};

verus! {

/// Which of the two activation routines is run.
#[derive(Debug, Clone, Copy, PartialEq, Eq, Structural)]
pub enum FocusMode {
    /// Before injected input: activate, restore or show, settle briefly.
    Guard,
    /// Once before a session: restore or show, raise above all windows,
    /// activate, end the raising, settle at length.
    BringToFront,
}

/// The action that a focus routine waits on.
#[derive(Debug, Clone, Copy, PartialEq, Eq, Structural)]
pub enum FocusStage {
    /// Normal activation was asked for.
    Activating,
    /// The two threads were asked for.
    QueryingThreads,
    /// Forced activation was asked for.
    Forcing,
    /// The window's state was asked for.
    QueryingMinimized,
    /// The window is being restored or shown.
    Showing,
    /// The window is being raised above all others.
    Raising,
    /// The raising is being ended.
    Lowering,
    /// The settle interval is running.
    Settling,
}

/// Milliseconds to wait after the guard routine.
pub const FOCUS_SETTLE_MS: u64 = 300;

/// Milliseconds to wait after bringing the window to the front.
pub const FRONT_SETTLE_MS: u64 = 1500;

/// A focus routine under way.
#[derive(Debug, Clone, Copy, PartialEq, Eq, Structural)]
pub struct FocusGuard {
    pub mode: FocusMode,
    pub stage: FocusStage,
}

/// What a focus routine asks for next; `None` once it is complete.
#[derive(Debug, PartialEq)]
pub enum FocusProgress {
    /// Carry out the action, then report to the routine in this state.
    Perform(FocusGuard, Action),
    /// The routine is complete.
    Complete,
}

/// The settle interval of a routine.
pub open spec fn settle_millis(mode: FocusMode) -> u64 {
    match mode {
        FocusMode::Guard => FOCUS_SETTLE_MS,
        FocusMode::BringToFront => FRONT_SETTLE_MS,
    }
}

/// Whether forced activation is worth trying: the window's thread is known
/// and is another thread than the driver's.
pub open spec fn can_attach(current: u32, target: u32) -> bool {
    target != 0 && target != current
}

/// What follows once activation is over, however it went.
pub open spec fn after_activation(mode: FocusMode) -> (FocusStage, Action) {
    match mode {
        FocusMode::Guard => (FocusStage::QueryingMinimized, Action::QueryMinimized),
        FocusMode::BringToFront => (FocusStage::Lowering, Action::SetTopmost { on: false }),
    }
}

/// The first stage of a routine and the action it begins with.
pub open spec fn first_stage(mode: FocusMode) -> (FocusStage, Action) {
    match mode {
        FocusMode::Guard => (FocusStage::Activating, Action::SetForeground),
        FocusMode::BringToFront => (FocusStage::QueryingMinimized, Action::QueryMinimized),
    }
}

/// The stage that follows `stage` on `event`, with its action; `None` where
/// the routine is complete.
///
/// A failed activation leads to the forced one, if the threads allow it.
/// Only a window reported as minimized is restored. The settle interval is
/// the last step on every path.
pub open spec fn next_stage(mode: FocusMode, stage: FocusStage, event: Event) -> Option<
    (FocusStage, Action),
> {
    match stage {
        FocusStage::Activating => if event is Done {
            Some(after_activation(mode))
        } else {
            Some((FocusStage::QueryingThreads, Action::QueryThreads))
        },
        FocusStage::QueryingThreads => match event {
            Event::Threads { current, target } => if can_attach(current, target) {
                Some(
                    (
                        FocusStage::Forcing,
                        Action::ForceForeground { current_thread: current, target_thread: target },
                    ),
                )
            } else {
                Some(after_activation(mode))
            },
            _ => Some(after_activation(mode)),
        },
        FocusStage::Forcing => Some(after_activation(mode)),
        FocusStage::QueryingMinimized => match event {
            Event::Minimized { minimized: true } => Some(
                (FocusStage::Showing, Action::ShowWindow { mode: ShowMode::Restore }),
            ),
            _ => Some((FocusStage::Showing, Action::ShowWindow { mode: ShowMode::Show })),
        },
        FocusStage::Showing => match mode {
            FocusMode::Guard => Some(
                (FocusStage::Settling, Action::Sleep { millis: FOCUS_SETTLE_MS }),
            ),
            FocusMode::BringToFront => Some((FocusStage::Raising, Action::SetTopmost { on: true })),
        },
        FocusStage::Raising => Some((FocusStage::Activating, Action::SetForeground)),
        FocusStage::Lowering => Some(
            (FocusStage::Settling, Action::Sleep { millis: settle_millis(mode) }),
        ),
        FocusStage::Settling => None,
    }
}

/// Wraps a stage and its action as progress of the routine in `mode`.
pub open spec fn progress_of(mode: FocusMode, step: Option<(FocusStage, Action)>)
    -> FocusProgress {
    match step {
        Some((stage, action)) => FocusProgress::Perform(FocusGuard { mode, stage }, action),
        None => FocusProgress::Complete,
    }
}

/// Most steps that a routine can still take from a stage.
pub open spec fn steps_left(mode: FocusMode, stage: FocusStage) -> nat {
    match mode {
        FocusMode::Guard => match stage {
            FocusStage::Raising => 7,
            FocusStage::Activating => 6,
            FocusStage::QueryingThreads => 5,
            FocusStage::Forcing => 4,
            FocusStage::QueryingMinimized => 3,
            FocusStage::Showing => 2,
            FocusStage::Lowering => 2,
            FocusStage::Settling => 1,
        },
        FocusMode::BringToFront => match stage {
            FocusStage::QueryingMinimized => 8,
            FocusStage::Showing => 7,
            FocusStage::Raising => 6,
            FocusStage::Activating => 5,
            FocusStage::QueryingThreads => 4,
            FocusStage::Forcing => 3,
            FocusStage::Lowering => 2,
            FocusStage::Settling => 1,
        },
    }
}

/// Whatever the driver reports, a focus routine comes to an end, and the
/// last thing it does on every path is to wait for its settle interval:
/// each step leaves fewer steps to take, the routine is complete only after
/// the settle stage, and that stage is entered only by the wait.
pub proof fn lemma_focus_always_settles(mode: FocusMode, stage: FocusStage, event: Event)
    ensures
        next_stage(mode, stage, event) matches Some((next, _)) ==> steps_left(mode, next)
            < steps_left(mode, stage),
        next_stage(mode, stage, event) is None <==> stage == FocusStage::Settling,
        next_stage(mode, stage, event) matches Some((next, action)) ==> (next
            == FocusStage::Settling <==> action == Action::Sleep { millis: settle_millis(mode) }),
{
}

/// A window is restored only if it is reported as minimized; no other
/// action of a routine changes its size or place.
pub proof fn lemma_focus_keeps_geometry(mode: FocusMode, stage: FocusStage, event: Event)
    ensures
        next_stage(mode, stage, event) matches Some((_, action)) ==> (action == Action::ShowWindow {
            mode: ShowMode::Restore,
        } <==> stage == FocusStage::QueryingMinimized && event == Event::Minimized {
            minimized: true,
        }),
{
}

fn activation_done(mode: FocusMode) -> (r: FocusProgress)
    ensures
        r == progress_of(mode, Some(after_activation(mode))),
{
    match mode {
        FocusMode::Guard => FocusProgress::Perform(
            FocusGuard { mode, stage: FocusStage::QueryingMinimized },
            Action::QueryMinimized,
        ),
        FocusMode::BringToFront => FocusProgress::Perform(
            FocusGuard { mode, stage: FocusStage::Lowering },
            Action::SetTopmost { on: false },
        ),
    }
}

impl FocusGuard {
    /// Begins a focus routine.
    pub fn start(mode: FocusMode) -> (r: (FocusGuard, Action))
        ensures
            r.0.mode == mode,
            (r.0.stage, r.1) == first_stage(mode),
    {
        match mode {
            FocusMode::Guard => (
                FocusGuard { mode, stage: FocusStage::Activating },
                Action::SetForeground,
            ),
            FocusMode::BringToFront => (
                FocusGuard { mode, stage: FocusStage::QueryingMinimized },
                Action::QueryMinimized,
            ),
        }
    }

    /// Takes the driver's report on the last action and says what comes
    /// next.
    pub fn step(self, event: &Event) -> (r: FocusProgress)
        ensures
            r == progress_of(self.mode, next_stage(self.mode, self.stage, *event)),
    {
        let mode: FocusMode = self.mode;
        match self.stage {
            FocusStage::Activating => match event {
                Event::Done => activation_done(mode),
                _ => FocusProgress::Perform(
                    FocusGuard { mode, stage: FocusStage::QueryingThreads },
                    Action::QueryThreads,
                ),
            },
            FocusStage::QueryingThreads => match event {
                Event::Threads { current, target } => {
                    if *target != 0 && *target != *current {
                        FocusProgress::Perform(
                            FocusGuard { mode, stage: FocusStage::Forcing },
                            Action::ForceForeground {
                                current_thread: *current,
                                target_thread: *target,
                            },
                        )
                    } else {
                        activation_done(mode)
                    }
                },
                _ => activation_done(mode),
            },
            FocusStage::Forcing => activation_done(mode),
            FocusStage::QueryingMinimized => match event {
                Event::Minimized { minimized: true } => FocusProgress::Perform(
                    FocusGuard { mode, stage: FocusStage::Showing },
                    Action::ShowWindow { mode: ShowMode::Restore },
                ),
                _ => FocusProgress::Perform(
                    FocusGuard { mode, stage: FocusStage::Showing },
                    Action::ShowWindow { mode: ShowMode::Show },
                ),
            },
            FocusStage::Showing => match mode {
                FocusMode::Guard => FocusProgress::Perform(
                    FocusGuard { mode, stage: FocusStage::Settling },
                    Action::Sleep { millis: FOCUS_SETTLE_MS },
                ),
                FocusMode::BringToFront => FocusProgress::Perform(
                    FocusGuard { mode, stage: FocusStage::Raising },
                    Action::SetTopmost { on: true },
                ),
            },
            FocusStage::Raising => FocusProgress::Perform(
                FocusGuard { mode, stage: FocusStage::Activating },
                Action::SetForeground,
            ),
            FocusStage::Lowering => FocusProgress::Perform(
                FocusGuard { mode, stage: FocusStage::Settling },
                Action::Sleep {
                    millis: match mode {
                        FocusMode::Guard => FOCUS_SETTLE_MS,
                        FocusMode::BringToFront => FRONT_SETTLE_MS,
                    },
                },
            ),
            FocusStage::Settling => FocusProgress::Complete,
        }
    }
}

} // verus!
