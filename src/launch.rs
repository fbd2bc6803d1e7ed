use vstd::prelude::*;
use crate::paths::{
    backend_path, backend_path_of, diagnostic_line, diagnostic_line_of, log_path, log_path_of,
    Separator,
};
use vstd::string::StringExecFns;

verus! {

/// Why startup was abandoned.
#[derive(Clone, Copy, Debug, PartialEq, Eq, Structural)]
pub enum LaunchError {
    /// The running executable's path, or its directory, is unknown.
    PathResolution,
    /// The log file could not be created or opened.
    LogOpen,
    /// The diagnostic line could not be written.
    LogWrite,
    /// The log handle could not be duplicated for the child's two streams.
    HandleDuplication,
    /// The backend process could not be started.
    Spawn,
}

/// Where the startup sequence stands.
#[derive(Clone, Copy, Debug, PartialEq, Eq, Structural)]
pub enum Stage {
    ResolveSelfPath,
    OpenLog,
    WriteDiagnostic,
    DuplicateHandles,
    Spawn,
    Done,
    Failed(LaunchError),
}

/// How the log file is opened.
#[derive(Clone, Copy, Debug, PartialEq, Eq, Structural)]
pub struct OpenMode {
    pub create: bool,
    pub append: bool,
    pub truncate: bool,
}

/// Create the file if it is absent, and keep what it holds.
pub open spec fn append_mode() -> OpenMode {
    OpenMode { create: true, append: true, truncate: false }
}

/// What the program around the launcher is asked to do next.
#[derive(Clone, Debug, PartialEq, Eq)]
pub enum Action {
    /// Find the directory of the running executable.
    ResolveSelfPath,
    /// Open the log file at `path`.
    OpenLog { path: String, mode: OpenMode },
    /// Write `text` to the open log file.
    WriteLog { text: String },
    /// Make a second handle to the open log file.
    DuplicateLog,
    /// Start `program` with no arguments, its standard output on one log
    /// handle and its standard error on the other, and do not wait for it.
    Spawn { program: String },
    /// Startup is complete.
    Finish,
    /// Stop the application with a failure status.
    Abort { error: LaunchError },
}

/// What came of the last action.
#[derive(Clone, Debug, PartialEq, Eq)]
pub enum Event {
    /// The executable's directory, or `None` where it cannot be had.
    SelfPathResolved(Option<String>),
    /// The action was carried out.
    Succeeded,
    /// The action failed.
    Failed,
}

/// The startup sequence: resolve the executable's directory, open the log,
/// write one line to it, duplicate its handle, start the backend. Any failure
/// ends it, and nothing is retried.
pub struct Launcher {
    pub stage: Stage,
    pub sep: Separator,
    /// The executable's directory, once it is known.
    pub exe_dir: String,
}

/// The stage that follows `stage` on `event`.
pub open spec fn next_stage(stage: Stage, event: Event) -> Stage {
    match stage {
        Stage::ResolveSelfPath => match event {
            Event::SelfPathResolved(Some(_)) => Stage::OpenLog,
            _ => Stage::Failed(LaunchError::PathResolution),
        },
        Stage::OpenLog => if event == Event::Succeeded {
            Stage::WriteDiagnostic
        } else {
            Stage::Failed(LaunchError::LogOpen)
        },
        Stage::WriteDiagnostic => if event == Event::Succeeded {
            Stage::DuplicateHandles
        } else {
            Stage::Failed(LaunchError::LogWrite)
        },
        Stage::DuplicateHandles => if event == Event::Succeeded {
            Stage::Spawn
        } else {
            Stage::Failed(LaunchError::HandleDuplication)
        },
        Stage::Spawn => if event == Event::Succeeded {
            Stage::Done
        } else {
            Stage::Failed(LaunchError::Spawn)
        },
        Stage::Done => Stage::Done,
        Stage::Failed(e) => Stage::Failed(e),
    }
}

/// The executable's directory after `event`, where it was `dir` before.
pub open spec fn next_dir(stage: Stage, dir: Seq<char>, event: Event) -> Seq<char> {
    match (stage, event) {
        (Stage::ResolveSelfPath, Event::SelfPathResolved(Some(d))) => d@,
        _ => dir,
    }
}

/// `a` is the action owed in `stage`, for executable directory `dir`.
pub open spec fn is_action_of(stage: Stage, dir: Seq<char>, sep: Separator, a: Action) -> bool {
    match stage {
        Stage::ResolveSelfPath => a == Action::ResolveSelfPath,
        Stage::OpenLog => match a {
            Action::OpenLog { path, mode } => path@ == log_path_of(dir, sep) && mode
                == append_mode(),
            _ => false,
        },
        Stage::WriteDiagnostic => match a {
            Action::WriteLog { text } => text@ == diagnostic_line_of(backend_path_of(dir, sep)),
            _ => false,
        },
        Stage::DuplicateHandles => a == Action::DuplicateLog,
        Stage::Spawn => match a {
            Action::Spawn { program } => program@ == backend_path_of(dir, sep),
            _ => false,
        },
        Stage::Done => a == Action::Finish,
        Stage::Failed(e) => a == (Action::Abort { error: e }),
    }
}

impl Launcher {
    /// A launcher that has not done anything yet.
    pub fn new(sep: Separator) -> (r: Launcher)
        ensures
            r.stage == Stage::ResolveSelfPath,
            r.sep == sep,
            r.exe_dir@ == Seq::<char>::empty(),
    {
        Launcher { stage: Stage::ResolveSelfPath, sep, exe_dir: String::new() }
    }

    /// Startup has ended, well or not.
    pub fn is_finished(&self) -> (r: bool)
        ensures
            r == (self.stage == Stage::Done || self.stage is Failed),
    {
        match self.stage {
            Stage::Done | Stage::Failed(_) => true,
            _ => false,
        }
    }

    /// What is to be done in the current stage.
    pub fn action(&self) -> (r: Action)
        ensures
            is_action_of(self.stage, self.exe_dir@, self.sep, r),
    {
        match self.stage {
            Stage::ResolveSelfPath => Action::ResolveSelfPath,
            Stage::OpenLog => Action::OpenLog {
                path: log_path(self.exe_dir.as_str(), self.sep),
                mode: OpenMode { create: true, append: true, truncate: false },
            },
            Stage::WriteDiagnostic => {
                let program = backend_path(self.exe_dir.as_str(), self.sep);
                Action::WriteLog { text: diagnostic_line(program.as_str()) }
            },
            Stage::DuplicateHandles => Action::DuplicateLog,
            Stage::Spawn => Action::Spawn {
                program: backend_path(self.exe_dir.as_str(), self.sep),
            },
            Stage::Done => Action::Finish,
            Stage::Failed(e) => Action::Abort { error: e },
        }
    }

    /// Takes in what came of the current action.
    pub fn advance(&mut self, event: Event)
        ensures
            final(self).stage == next_stage(old(self).stage, event),
            final(self).exe_dir@ == next_dir(old(self).stage, old(self).exe_dir@, event),
            final(self).sep == old(self).sep,
    {
        match self.stage {
            Stage::ResolveSelfPath => match event {
                Event::SelfPathResolved(Some(d)) => {
                    self.exe_dir = d;
                    self.stage = Stage::OpenLog;
                },
                _ => {
                    self.stage = Stage::Failed(LaunchError::PathResolution);
                },
            },
            Stage::OpenLog => {
                self.stage = if succeeded(&event) {
                    Stage::WriteDiagnostic
                } else {
                    Stage::Failed(LaunchError::LogOpen)
                };
            },
            Stage::WriteDiagnostic => {
                self.stage = if succeeded(&event) {
                    Stage::DuplicateHandles
                } else {
                    Stage::Failed(LaunchError::LogWrite)
                };
            },
            Stage::DuplicateHandles => {
                self.stage = if succeeded(&event) {
                    Stage::Spawn
                } else {
                    Stage::Failed(LaunchError::HandleDuplication)
                };
            },
            Stage::Spawn => {
                self.stage = if succeeded(&event) {
                    Stage::Done
                } else {
                    Stage::Failed(LaunchError::Spawn)
                };
            },
            Stage::Done | Stage::Failed(_) => {},
        }
    }
}

/// The event reports success.
fn succeeded(event: &Event) -> (r: bool)
    ensures
        r == (*event == Event::Succeeded),
{
    match event {
        Event::Succeeded => true,
        _ => false,
    }
}

/// The stage reached from `stage` after `events`, in order.
pub open spec fn run_stage(stage: Stage, events: Seq<Event>) -> Stage
    decreases events.len(),
{
    if events.len() == 0 {
        stage
    } else {
        run_stage(next_stage(stage, events[0]), events.drop_first())
    }
}

/// `event` reports that the work of `stage` was done.
pub open spec fn succeeds_in(stage: Stage, event: Event) -> bool {
    match stage {
        Stage::ResolveSelfPath => match event {
            Event::SelfPathResolved(Some(_)) => true,
            _ => false,
        },
        _ => event == Event::Succeeded,
    }
}

/// How far a stage of the sequence lies from its start; past the end for
/// `Done` and `Failed`.
pub open spec fn rank(stage: Stage) -> nat {
    match stage {
        Stage::ResolveSelfPath => 0,
        Stage::OpenLog => 1,
        Stage::WriteDiagnostic => 2,
        Stage::DuplicateHandles => 3,
        Stage::Spawn => 4,
        Stage::Done => 5,
        Stage::Failed(_) => 6,
    }
}

/// The stage at distance `r` from the start.
pub open spec fn stage_at(r: nat) -> Stage {
    if r == 0 {
        Stage::ResolveSelfPath
    } else if r == 1 {
        Stage::OpenLog
    } else if r == 2 {
        Stage::WriteDiagnostic
    } else if r == 3 {
        Stage::DuplicateHandles
    } else {
        Stage::Spawn
    }
}

/// Once startup has ended, well or not, no event changes the stage: after a
/// failure nothing more is attempted.
pub proof fn lemma_finished_is_final(stage: Stage, events: Seq<Event>)
    requires
        stage == Stage::Done || stage is Failed,
    ensures
        run_stage(stage, events) == stage,
    decreases events.len(),
{
    if events.len() > 0 {
        lemma_finished_is_final(next_stage(stage, events[0]), events.drop_first());
    }
}

proof fn lemma_reaching_spawn(stage: Stage, events: Seq<Event>)
    requires
        rank(stage) <= 4,
        run_stage(stage, events) == Stage::Spawn,
    ensures
        events.len() + rank(stage) == 4,
        forall|i: int|
            0 <= i < events.len() ==> succeeds_in(stage_at((rank(stage) + i) as nat), #[trigger] events[i]),
    decreases events.len(),
{
    if events.len() > 0 {
        let next = next_stage(stage, events[0]);
        if next == Stage::Done || next is Failed {
            lemma_finished_is_final(next, events.drop_first());
        } else {
            lemma_reaching_spawn(next, events.drop_first());
            assert forall|i: int| 0 <= i < events.len() implies succeeds_in(
                stage_at((rank(stage) + i) as nat),
                #[trigger] events[i],
            ) by {
                if i > 0 {
                    assert(events[i] == events.drop_first()[i - 1]);
                    assert((rank(next) + (i - 1)) as nat == (rank(stage) + i) as nat);
                }
            }
        }
    }
}

/// The backend is started only after every earlier step succeeded, the
/// opening of the log among them: from a new launcher, the spawn is asked for
/// only after the directory was resolved, the log opened, the line written
/// and the handle duplicated, in that order.
pub proof fn lemma_spawn_only_after_log_opened(events: Seq<Event>)
    requires
        run_stage(Stage::ResolveSelfPath, events) == Stage::Spawn,
    ensures
        events.len() == 4,
        events[0] is SelfPathResolved && events[0]->SelfPathResolved_0 is Some,
        events[1] == Event::Succeeded,
        events[2] == Event::Succeeded,
        events[3] == Event::Succeeded,
{
    lemma_reaching_spawn(Stage::ResolveSelfPath, events);
    assert(succeeds_in(stage_at(0), events[0]));
    assert(succeeds_in(stage_at(1), events[1]));
    assert(succeeds_in(stage_at(2), events[2]));
    assert(succeeds_in(stage_at(3), events[3]));
}

/// Where the log cannot be opened, startup ends with that failure whatever
/// comes after, and the backend is never started.
pub proof fn lemma_log_open_failure_stops_startup(dir: Option<String>, event: Event, rest: Seq<Event>)
    requires
        dir is Some,
        event != Event::Succeeded,
    ensures
        run_stage(
            Stage::ResolveSelfPath,
            seq![Event::SelfPathResolved(dir), event] + rest,
        ) == Stage::Failed(LaunchError::LogOpen),
        forall|a: Action|
            is_action_of(Stage::Failed(LaunchError::LogOpen), Seq::empty(), Separator::Slash, a)
                <==> a == (Action::Abort { error: LaunchError::LogOpen }),
{
    let events = seq![Event::SelfPathResolved(dir), event] + rest;
    assert(events[0] == Event::SelfPathResolved(dir));
    assert(events.drop_first()[0] == event);
    assert(events.drop_first().drop_first() =~= rest);
    lemma_finished_is_final(Stage::Failed(LaunchError::LogOpen), rest);
    assert(run_stage(Stage::OpenLog, events.drop_first()) == Stage::Failed(LaunchError::LogOpen));
}

/// A backend that cannot be started ends startup with a spawn failure, and
/// what is then asked for is to stop with that error.
pub proof fn lemma_spawn_failure_aborts(event: Event, dir: Seq<char>, sep: Separator, a: Action)
    requires
        event != Event::Succeeded,
    ensures
        next_stage(Stage::Spawn, event) == Stage::Failed(LaunchError::Spawn),
        is_action_of(next_stage(Stage::Spawn, event), dir, sep, a) <==> a == (Action::Abort {
            error: LaunchError::Spawn,
        }),
{
}

} // verus!
