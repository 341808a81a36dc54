//! The protocol round the render/poll loop: acquire the terminal session,
//! render and poll in turn until a quit or a failure, release the session,
//! exit.
//!
//! The library decides; the program acts. The program asks for the next
//! action, performs it, and reports how it went.

use vstd::prelude::*;
use crate::input::Input;
use crate::selection::{initial, step, Dashboard, Selection};
use crate::tabs::TabSet;

verus! {

/// The bounded wait for input, in milliseconds.
pub const POLL_TIMEOUT_MS: u64 = 100;

/// Why a run failed.
#[derive(Clone, Copy, Debug, PartialEq, Eq, Structural)]
pub enum Failure {
    /// The terminal session could not be acquired or released.
    Session,
    /// An input event could not be read or a frame could not be written.
    Io,
}

/// Where a run stands: the step that the program is to perform next.
#[derive(Clone, Copy, Debug, PartialEq, Eq, Structural)]
pub enum Phase {
    /// The terminal session is to be acquired.
    Acquiring,
    /// A frame is to be drawn.
    Rendering,
    /// Input is to be waited for.
    Polling,
    /// The terminal session is to be released.
    Releasing,
    /// Nothing is left to do but exit.
    Finished,
}

/// What the program is to do next.
#[derive(Clone, Copy, Debug, PartialEq, Eq, Structural)]
pub enum Action {
    /// Acquire the terminal session.
    Acquire,
    /// Draw the frame of the current state on the whole surface.
    Render,
    /// Wait for input, for `POLL_TIMEOUT_MS` at most.
    Poll,
    /// Release the terminal session.
    Release,
    /// Exit with the run's result.
    Exit,
}

/// How the last action went.
#[derive(Clone, Copy, Debug, PartialEq, Eq, Structural)]
pub enum Event {
    /// The action succeeded. After a wait for input it stands for a wait
    /// that ran out.
    Done,
    /// The action failed.
    Failed,
    /// The wait for input produced this input. After any other action it
    /// stands for success.
    Polled(Input),
}

/// A run as plain values.
pub struct Stage {
    /// Where the run stands.
    pub phase: Phase,
    /// The selection state.
    pub selection: Selection,
    /// The failure that the run will exit with, if one was met.
    pub failure: Option<Failure>,
    /// Whether the release of the terminal session failed, which is known
    /// apart from the failure that the run exits with.
    pub release_failed: bool,
}

/// The stage in which every run starts.
pub open spec fn opening() -> Stage {
    Stage { phase: Phase::Acquiring, selection: initial(), failure: None, release_failed: false }
}

/// The action that a phase asks for.
pub open spec fn phase_action(phase: Phase) -> Action {
    match phase {
        Phase::Acquiring => Action::Acquire,
        Phase::Rendering => Action::Render,
        Phase::Polling => Action::Poll,
        Phase::Releasing => Action::Release,
        Phase::Finished => Action::Exit,
    }
}

/// The input that an event carries after a wait for input.
pub open spec fn event_input(event: Event) -> Input {
    match event {
        Event::Polled(input) => input,
        _ => Input::Timeout,
    }
}

/// The failure that a run exits with when the loop left `earlier` and the
/// release did or did not fail: a failure of the loop comes first.
pub open spec fn settled(earlier: Option<Failure>, release_failed: bool) -> Option<Failure> {
    match earlier {
        Some(failure) => Some(failure),
        None => if release_failed {
            Some(Failure::Session)
        } else {
            None
        },
    }
}

/// The stage after the action of `s` was performed and reported as
/// `event`, among `n` tabs.
///
/// A failed acquisition ends the run at once, with nothing to release. A
/// failed draw or wait leaves the loop for the release. A wait that
/// succeeded hands its input to the selection state; the loop goes on with
/// a draw unless that input was a quit. The release ends the run, however
/// it went. A finished run stays finished.
pub open spec fn next_stage(n: nat, s: Stage, event: Event) -> Stage {
    let failed = event == Event::Failed;
    match s.phase {
        Phase::Acquiring => if failed {
            Stage { phase: Phase::Finished, failure: Some(Failure::Session), ..s }
        } else {
            Stage { phase: Phase::Rendering, ..s }
        },
        Phase::Rendering => if failed {
            Stage { phase: Phase::Releasing, failure: Some(Failure::Io), ..s }
        } else {
            Stage { phase: Phase::Polling, ..s }
        },
        Phase::Polling => if failed {
            Stage { phase: Phase::Releasing, failure: Some(Failure::Io), ..s }
        } else {
            let selection = step(n, s.selection, event_input(event));
            Stage {
                phase: if selection.running {
                    Phase::Rendering
                } else {
                    Phase::Releasing
                },
                selection,
                ..s
            }
        },
        Phase::Releasing => Stage {
            phase: Phase::Finished,
            failure: settled(s.failure, failed),
            release_failed: failed,
            ..s
        },
        Phase::Finished => s,
    }
}

/// The stage after a sequence of reports, taken in order.
pub open spec fn play(n: nat, s: Stage, events: Seq<Event>) -> Stage
    decreases events.len(),
{
    if events.len() == 0 {
        s
    } else {
        next_stage(n, play(n, s, events.drop_last()), events.last())
    }
}

/// How often `action` was performed while `events` were reported from
/// stage `s` on: once for each report that came in while the stage asked
/// for that action.
pub open spec fn times_performed(n: nat, s: Stage, events: Seq<Event>, action: Action) -> nat
    decreases events.len(),
{
    if events.len() == 0 {
        0
    } else {
        let before = play(n, s, events.drop_last());
        let here: nat = if phase_action(before.phase) == action {
            1
        } else {
            0
        };
        times_performed(n, s, events.drop_last(), action) + here
    }
}

/// The reports of one pass of the loop in which the draw succeeds and the
/// wait brings `input`.
pub open spec fn pass(input: Input) -> Seq<Event> {
    seq![Event::Done, Event::Polled(input)]
}

/// A run of the dashboard: its state and where the protocol stands.
pub struct Session {
    dashboard: Dashboard,
    phase: Phase,
    failure: Option<Failure>,
    release_failed: bool,
}

impl Session {
    /// The dashboard that this run drives.
    pub closed spec fn board(self) -> Dashboard {
        self.dashboard
    }

    /// The run as plain values.
    pub closed spec fn view(&self) -> Stage {
        Stage {
            phase: self.phase,
            selection: self.dashboard@,
            failure: self.failure,
            release_failed: self.release_failed,
        }
    }

    /// Starts a run over `tabs`: the first tab selected, the terminal
    /// session still to be acquired.
    pub fn new(tabs: TabSet) -> (session: Session)
        ensures
            session.board().tabs() == tabs,
            session@ == opening(),
    {
        Session {
            dashboard: Dashboard::new(tabs),
            phase: Phase::Acquiring,
            failure: None,
            release_failed: false,
        }
    }

    /// The dashboard that this run drives, for drawing its frame.
    pub fn dashboard(&self) -> (dashboard: &Dashboard)
        ensures
            *dashboard == self.board(),
            dashboard@ == self@.selection,
    {
        &self.dashboard
    }

    /// Where the run stands.
    pub fn phase(&self) -> (phase: Phase)
        ensures
            phase == self@.phase,
    {
        self.phase
    }

    /// What the program is to do next.
    pub fn action(&self) -> (action: Action)
        ensures
            action == phase_action(self@.phase),
    {
        match self.phase {
            Phase::Acquiring => Action::Acquire,
            Phase::Rendering => Action::Render,
            Phase::Polling => Action::Poll,
            Phase::Releasing => Action::Release,
            Phase::Finished => Action::Exit,
        }
    }

    /// The result that the run exits with, once it has finished: the
    /// failure it met, or success. Before that, what it would exit with if
    /// nothing more went wrong.
    pub fn result(&self) -> (result: Result<(), Failure>)
        ensures
            result == match self@.failure {
                Some(failure) => Err::<(), Failure>(failure),
                None => Ok::<(), Failure>(()),
            },
    {
        match self.failure {
            Some(failure) => Err(failure),
            None => Ok(()),
        }
    }

    /// Whether the release of the terminal session failed. Where the loop
    /// had failed before, the run exits with the loop's failure, and this
    /// is how the failed release is still known.
    pub fn release_failed(&self) -> (failed: bool)
        ensures
            failed == self@.release_failed,
    {
        self.release_failed
    }

    /// Takes the report on the action that was asked for and moves the run
    /// on. The tabs stay as they are.
    pub fn report(&mut self, event: Event)
        ensures
            final(self).board().tabs() == old(self).board().tabs(),
            final(self)@ == next_stage(old(self).board().count(), old(self)@, event),
    {
        let failed = match event {
            Event::Failed => true,
            _ => false,
        };
        match self.phase {
            Phase::Acquiring => {
                if failed {
                    self.failure = Some(Failure::Session);
                    self.phase = Phase::Finished;
                } else {
                    self.phase = Phase::Rendering;
                }
            },
            Phase::Rendering => {
                if failed {
                    self.failure = Some(Failure::Io);
                    self.phase = Phase::Releasing;
                } else {
                    self.phase = Phase::Polling;
                }
            },
            Phase::Polling => {
                if failed {
                    self.failure = Some(Failure::Io);
                    self.phase = Phase::Releasing;
                } else {
                    let input = match event {
                        Event::Polled(input) => input,
                        _ => Input::Timeout,
                    };
                    self.dashboard.handle(input);
                    if self.dashboard.is_running() {
                        self.phase = Phase::Rendering;
                    } else {
                        self.phase = Phase::Releasing;
                    }
                }
            },
            Phase::Releasing => {
                if self.failure.is_none() && failed {
                    self.failure = Some(Failure::Session);
                }
                self.release_failed = failed;
                self.phase = Phase::Finished;
            },
            Phase::Finished => {},
        }
    }
}

} // verus!
