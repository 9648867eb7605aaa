//! The run of the shim as a state machine: configure, open the log files
//! when logging, spawn, drain both relays, reap the child, and decide the
//! outcome. The caller performs each action and reports its result.
use vstd::prelude::*;

verus! {

/// How a run ends.
#[derive(Debug, PartialEq, Eq)]
pub enum ExitOutcome {
    Success,
    /// The child ran and exited unsuccessfully, with its exit code if it had one.
    ChildNonZero(Option<i32>),
    SpawnFailed(String),
    IoFailed(String),
    ConfigInvalid(String),
    WaitFailed(String),
}

/// The exit code that the shim reports when the run ends in an error of its own.
pub const INTERNAL_FAILURE_CODE: i32 = 101;

/// The exit code that the shim reports when the child ended without one.
pub const CHILD_FAILURE_CODE: i32 = 1;

pub open spec fn exit_code_of(o: ExitOutcome) -> i32 {
    match o {
        ExitOutcome::Success => 0,
        ExitOutcome::ChildNonZero(Some(c)) => if c != 0 {
            c
        } else {
            CHILD_FAILURE_CODE
        },
        ExitOutcome::ChildNonZero(None) => CHILD_FAILURE_CODE,
        _ => INTERNAL_FAILURE_CODE,
    }
}

impl ExitOutcome {
    /// The shim's own exit code: zero on success, the child's code when it
    /// failed with one, a fixed code otherwise.
    pub fn exit_code(&self) -> (r: i32)
        ensures
            r == exit_code_of(*self),
    {
        match self {
            ExitOutcome::Success => 0,
            ExitOutcome::ChildNonZero(Some(c)) => if *c != 0 {
                *c
            } else {
                CHILD_FAILURE_CODE
            },
            ExitOutcome::ChildNonZero(None) => CHILD_FAILURE_CODE,
            _ => INTERNAL_FAILURE_CODE,
        }
    }

    pub fn is_success(&self) -> (r: bool)
        ensures
            r == (*self is Success),
    {
        match self {
            ExitOutcome::Success => true,
            _ => false,
        }
    }
}

#[derive(Debug, PartialEq, Eq, Structural, Clone, Copy)]
pub enum Stage {
    Configuring,
    OpeningLogs,
    Spawning,
    Relaying,
    Reaping,
    Done,
}

/// The result of the action that the caller performed last.
pub enum Event {
    /// The descriptor was read; `captures` tells whether it names a log prefix.
    Configured { captures: bool },
    /// The descriptor could not be read or names no program.
    ConfigFailed(String),
    LogsOpened,
    Spawned,
    /// Both relays reached the end of their streams.
    RelaysDrained,
    /// The child was reaped.
    Exited { success: bool, code: Option<i32> },
    /// The last action failed.
    Failed(String),
}

/// What the caller is to do next.
#[derive(Debug, PartialEq, Eq)]
pub enum Action {
    /// Create (truncating) the two log files.
    OpenLogs,
    /// Start the child with inherited stdin; its stdout and stderr are piped
    /// when `capture` holds and inherited otherwise.
    Spawn { capture: bool },
    /// Run both relays to the end of their streams.
    Relay,
    /// Wait for the child to exit.
    Wait,
    /// End the shim with this outcome.
    Exit(ExitOutcome),
}

pub open spec fn expects(stage: Stage, ev: Event) -> bool {
    match ev {
        Event::Configured { .. } | Event::ConfigFailed(_) => stage == Stage::Configuring,
        Event::LogsOpened => stage == Stage::OpeningLogs,
        Event::Spawned => stage == Stage::Spawning,
        Event::RelaysDrained => stage == Stage::Relaying,
        Event::Exited { .. } => stage == Stage::Reaping,
        Event::Failed(_) => stage == Stage::OpeningLogs || stage == Stage::Spawning || stage
            == Stage::Relaying || stage == Stage::Reaping,
    }
}

/// The next stage and action for an expected event.
pub open spec fn next(stage: Stage, captures: bool, ev: Event) -> (Stage, Action) {
    match ev {
        Event::Configured { captures: c } => if c {
            (Stage::OpeningLogs, Action::OpenLogs)
        } else {
            (Stage::Spawning, Action::Spawn { capture: false })
        },
        Event::ConfigFailed(m) => (Stage::Done, Action::Exit(ExitOutcome::ConfigInvalid(m))),
        Event::LogsOpened => (Stage::Spawning, Action::Spawn { capture: true }),
        Event::Spawned => if captures {
            (Stage::Relaying, Action::Relay)
        } else {
            (Stage::Reaping, Action::Wait)
        },
        Event::RelaysDrained => (Stage::Reaping, Action::Wait),
        Event::Exited { success, code } => (
            Stage::Done,
            Action::Exit(
                if success {
                    ExitOutcome::Success
                } else {
                    ExitOutcome::ChildNonZero(code)
                },
            ),
        ),
        Event::Failed(m) => (
            Stage::Done,
            Action::Exit(
                match stage {
                    Stage::Spawning => ExitOutcome::SpawnFailed(m),
                    Stage::Reaping => ExitOutcome::WaitFailed(m),
                    _ => ExitOutcome::IoFailed(m),
                },
            ),
        ),
    }
}

pub open spec fn next_captures(captures: bool, ev: Event) -> bool {
    match ev {
        Event::Configured { captures: c } => c,
        _ => captures,
    }
}

pub struct Supervisor {
    stage: Stage,
    captures: bool,
    drained: bool,
}

impl Supervisor {
    pub closed spec fn stage_of(&self) -> Stage {
        self.stage
    }

    pub closed spec fn captures_of(&self) -> bool {
        self.captures
    }

    /// Whether both relays have been drained.
    pub closed spec fn drained_of(&self) -> bool {
        self.drained
    }

    /// Log files and relays belong to logging mode, which reaps the child
    /// only after both relays are drained.
    pub open spec fn wf(&self) -> bool {
        &&& (self.stage_of() == Stage::OpeningLogs || self.stage_of() == Stage::Relaying)
            ==> self.captures_of()
        &&& (self.stage_of() == Stage::Reaping && self.captures_of()) ==> self.drained_of()
    }

    /// A run that has not read its descriptor yet.
    pub fn new() -> (r: Supervisor)
        ensures
            r.wf(),
            r.stage_of() == Stage::Configuring,
    {
        Supervisor { stage: Stage::Configuring, captures: false, drained: false }
    }

    pub fn stage(&self) -> (r: Stage)
        ensures
            r == self.stage_of(),
    {
        self.stage
    }

    /// Whether `ev` answers the action that this run issued last.
    pub fn expects(&self, ev: &Event) -> (r: bool)
        ensures
            r == expects(self.stage_of(), *ev),
    {
        let s = self.stage;
        match ev {
            Event::Configured { .. } | Event::ConfigFailed(_) => s == Stage::Configuring,
            Event::LogsOpened => s == Stage::OpeningLogs,
            Event::Spawned => s == Stage::Spawning,
            Event::RelaysDrained => s == Stage::Relaying,
            Event::Exited { .. } => s == Stage::Reaping,
            Event::Failed(_) => s == Stage::OpeningLogs || s == Stage::Spawning || s
                == Stage::Relaying || s == Stage::Reaping,
        }
    }

    /// Takes the result of the last action and gives the next one.
    pub fn step(&mut self, ev: Event) -> (r: Action)
        requires
            old(self).wf(),
            expects(old(self).stage_of(), ev),
        ensures
            final(self).wf(),
            (final(self).stage_of(), r) == next(old(self).stage_of(), old(self).captures_of(), ev),
            final(self).captures_of() == next_captures(old(self).captures_of(), ev),
            final(self).drained_of() == (old(self).drained_of() || (ev is RelaysDrained)),
    {
        let stage = self.stage;
        match ev {
            Event::Configured { captures } => {
                self.captures = captures;
                if captures {
                    self.stage = Stage::OpeningLogs;
                    Action::OpenLogs
                } else {
                    self.stage = Stage::Spawning;
                    Action::Spawn { capture: false }
                }
            },
            Event::ConfigFailed(m) => {
                self.stage = Stage::Done;
                Action::Exit(ExitOutcome::ConfigInvalid(m))
            },
            Event::LogsOpened => {
                self.stage = Stage::Spawning;
                Action::Spawn { capture: true }
            },
            Event::Spawned => {
                if self.captures {
                    self.stage = Stage::Relaying;
                    Action::Relay
                } else {
                    self.stage = Stage::Reaping;
                    Action::Wait
                }
            },
            Event::RelaysDrained => {
                self.drained = true;
                self.stage = Stage::Reaping;
                Action::Wait
            },
            Event::Exited { success, code } => {
                self.stage = Stage::Done;
                if success {
                    Action::Exit(ExitOutcome::Success)
                } else {
                    Action::Exit(ExitOutcome::ChildNonZero(code))
                }
            },
            Event::Failed(m) => {
                self.stage = Stage::Done;
                let o = match stage {
                    Stage::Spawning => ExitOutcome::SpawnFailed(m),
                    Stage::Reaping => ExitOutcome::WaitFailed(m),
                    _ => ExitOutcome::IoFailed(m),
                };
                Action::Exit(o)
            },
        }
    }
}

/// Without a log prefix the child is spawned with inherited streams, and no
/// later step opens a log file or starts a relay.
pub proof fn passthrough_opens_no_logs(s: Supervisor, ev: Event)
    requires
        s.wf(),
        !s.captures_of(),
        expects(s.stage_of(), ev),
        s.stage_of() != Stage::Configuring,
    ensures
        next(Stage::Configuring, false, (Event::Configured { captures: false })) == (
            Stage::Spawning,
            (Action::Spawn { capture: false }),
        ),
        next(s.stage_of(), false, ev).1 != Action::OpenLogs,
        next(s.stage_of(), false, ev).1 != Action::Relay,
        next(s.stage_of(), false, ev).1 != (Action::Spawn { capture: true }),
{
}

/// A descriptor that cannot be used ends the run at once: nothing is
/// spawned and no log file is opened.
pub proof fn config_failure_starts_nothing(captures: bool, m: String, ev: Event)
    ensures
        next(Stage::Configuring, captures, Event::ConfigFailed(m)) == (
            Stage::Done,
            Action::Exit(ExitOutcome::ConfigInvalid(m)),
        ),
        !expects(Stage::Done, ev),
{
}

/// In logging mode the child is reaped only after both relays are drained,
/// so all of its output has been relayed before the run can end.
pub proof fn wait_follows_drain(s: Supervisor, ev: Event)
    requires
        s.wf(),
        expects(s.stage_of(), ev),
        s.captures_of(),
    ensures
        next(s.stage_of(), s.captures_of(), ev).1 == Action::Wait ==> (s.drained_of()
            || (ev is RelaysDrained)),
        next(s.stage_of(), s.captures_of(), ev).1 matches Action::Exit(ExitOutcome::Success) ==> (
        s.drained_of()),
{
}

/// A child that exits unsuccessfully makes the run end with its status,
/// whatever the mode.
pub proof fn failed_child_is_reported(captures: bool, code: Option<i32>)
    ensures
        next(Stage::Reaping, captures, (Event::Exited { success: false, code })) == (
            Stage::Done,
            Action::Exit(ExitOutcome::ChildNonZero(code)),
        ),
        exit_code_of(ExitOutcome::ChildNonZero(code)) != 0,
{
}

} // verus!
