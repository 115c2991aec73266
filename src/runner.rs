//! The runner's shared state and its transitions: start, stop, pause and
//! the cleanup at the end of a run. At most one run is active at a time.
//!
//! The pause state is not held in memory: it is the existence of the flag
//! file on disk, which the host observes and hands to `status`.

use vstd::prelude::*;
use vstd::string::StringExecFns;
use crate::preflight::{failure_message, preflight_failure_message, view_checks, PreflightReport};
use crate::text::{join_str, path_join_of, trim_of, trimmed};

verus! {

/// Abstract value of the runner's state.
pub struct RunnerView {
    pub running: bool,
    pub stop_requested: bool,
    pub pause_flag: Option<Seq<char>>,
}

/// The runner's state, shared by every operation for the life of the host.
#[derive(Debug)]
pub struct RunnerState {
    pub running: bool,
    pub stop_requested: bool,
    /// Path of the pause flag file; set from start to cleanup of a run.
    pub pause_flag: Option<String>,
}

impl View for RunnerState {
    type V = RunnerView;

    open spec fn view(&self) -> RunnerView {
        RunnerView {
            running: self.running,
            stop_requested: self.stop_requested,
            pause_flag: match self.pause_flag {
                Some(p) => Some(p@),
                None => None,
            },
        }
    }
}

/// A snapshot for observers.
#[derive(Clone, Copy, Debug, PartialEq, Eq, Structural)]
pub struct RunnerStatus {
    pub running: bool,
    pub paused: bool,
    pub stop_requested: bool,
}

/// Why a start is refused.
#[derive(Clone, Copy, Debug, PartialEq, Eq, Structural)]
pub enum RejectReason {
    NoInputFolders,
    AlreadyRunning,
    PreflightFailed,
}

/// A refused start: its reason and the text shown to the caller.
#[derive(Debug)]
pub struct StartError {
    pub reason: RejectReason,
    pub message: String,
}

/// Why a pause or resume is refused.
#[derive(Clone, Copy, Debug, PartialEq, Eq, Structural)]
pub enum PauseError {
    NotRunning,
    FlagPathMissing,
}

/// What the host does to the disk for a pause or a resume.
#[derive(Debug)]
pub enum PauseAction {
    /// Write the flag file at this path.
    CreateFlag(String),
    /// Remove the flag file at this path, if it is there.
    RemoveFlag(String),
}

pub open spec fn idle_view() -> RunnerView {
    RunnerView { running: false, stop_requested: false, pause_flag: None }
}

/// The flag path only exists while a run is active.
pub open spec fn runner_inv(s: RunnerView) -> bool {
    s.pause_flag is Some ==> s.running
}

pub open spec fn status_of(s: RunnerView, flag_file_exists: bool) -> RunnerStatus {
    RunnerStatus {
        running: s.running,
        paused: s.pause_flag is Some && flag_file_exists,
        stop_requested: s.stop_requested,
    }
}

pub open spec fn start_rejection(s: RunnerView, folder_count: nat, preflight_ready: bool) -> Option<RejectReason> {
    if folder_count == 0 {
        Some(RejectReason::NoInputFolders)
    } else if s.running {
        Some(RejectReason::AlreadyRunning)
    } else if !preflight_ready {
        Some(RejectReason::PreflightFailed)
    } else {
        None
    }
}

pub open spec fn after_start(s: RunnerView, folder_count: nat, preflight_ready: bool, flag: Seq<char>) -> RunnerView {
    if start_rejection(s, folder_count, preflight_ready) is Some {
        s
    } else {
        RunnerView { running: true, stop_requested: false, pause_flag: Some(flag) }
    }
}

pub open spec fn rejection_message(reason: RejectReason, report: &PreflightReport) -> Seq<char> {
    match reason {
        RejectReason::NoInputFolders => "At least one input folder is required."@,
        RejectReason::AlreadyRunning => "A transcription run is already in progress."@,
        RejectReason::PreflightFailed => failure_message(view_checks(report.checks@)),
    }
}

pub open spec fn after_stop(s: RunnerView) -> RunnerView {
    if s.running {
        RunnerView { stop_requested: true, ..s }
    } else {
        s
    }
}

pub open spec fn pause_error(s: RunnerView) -> Option<PauseError> {
    if !s.running {
        Some(PauseError::NotRunning)
    } else if s.pause_flag is None {
        Some(PauseError::FlagPathMissing)
    } else {
        None
    }
}

/// Name of the pause flag file inside the output folder.
pub open spec fn pause_flag_name() -> Seq<char> {
    ".transcribe.pause"@
}

/// The pause flag path of a run writing to `output_folder`.
pub open spec fn pause_flag_of(output_folder: Seq<char>) -> Seq<char> {
    path_join_of(trim_of(output_folder), pause_flag_name())
}

/// The pause flag path for a run writing to `output_folder`.
pub fn pause_flag_path(output_folder: &str) -> (r: String)
    ensures
        r@ == pause_flag_of(output_folder@),
{
    let t = trimmed(output_folder);
    join_str(t.as_str(), ".transcribe.pause")
}

impl PauseError {
    pub fn message(&self) -> (r: String)
        ensures
            *self is NotRunning ==> r@ == "No active run to pause/resume."@,
            *self is FlagPathMissing ==> r@ == "Pause flag path not initialized."@,
    {
        match self {
            PauseError::NotRunning => String::from_str("No active run to pause/resume."),
            PauseError::FlagPathMissing => String::from_str("Pause flag path not initialized."),
        }
    }
}

impl RunnerState {
    /// The idle state at host start.
    pub fn new() -> (r: RunnerState)
        ensures
            r@ == idle_view(),
            runner_inv(r@),
    {
        RunnerState { running: false, stop_requested: false, pause_flag: None }
    }

    /// A snapshot; `flag_file_exists` is whether the file at the pause flag
    /// path exists on disk at this instant.
    pub fn status(&self, flag_file_exists: bool) -> (r: RunnerStatus)
        ensures
            r == status_of(self@, flag_file_exists),
    {
        RunnerStatus {
            running: self.running,
            paused: self.pause_flag.is_some() && flag_file_exists,
            stop_requested: self.stop_requested,
        }
    }

    /// Accepts or refuses a run of `folder_count` folders whose fresh
    /// preflight gave `preflight`. Refused: no folders; a run already active;
    /// preflight not ready; in that order, and the state is left as it was.
    /// Accepted: running, stop cleared, the pause flag path recorded.
    pub fn start(&mut self, folder_count: usize, preflight: &PreflightReport, pause_flag: String) -> (r: Result<
        (),
        StartError,
    >)
        ensures
            final(self)@ == after_start(old(self)@, folder_count as nat, preflight.ready, pause_flag@),
            runner_inv(old(self)@) ==> runner_inv(final(self)@),
            match start_rejection(old(self)@, folder_count as nat, preflight.ready) {
                None => r is Ok,
                Some(reason) => r is Err && r->Err_0.reason == reason && r->Err_0.message@ == rejection_message(
                    reason,
                    preflight,
                ),
            },
    {
        if folder_count == 0 {
            return Err(
                StartError {
                    reason: RejectReason::NoInputFolders,
                    message: String::from_str("At least one input folder is required."),
                },
            );
        }
        if self.running {
            return Err(
                StartError {
                    reason: RejectReason::AlreadyRunning,
                    message: String::from_str("A transcription run is already in progress."),
                },
            );
        }
        if !preflight.ready {
            return Err(
                StartError {
                    reason: RejectReason::PreflightFailed,
                    message: preflight_failure_message(&preflight.checks),
                },
            );
        }
        self.running = true;
        self.stop_requested = false;
        self.pause_flag = Some(pause_flag);
        Ok(())
    }

    /// Asks an active run to stop; returns whether a run was active (and so
    /// whether the active job, if any, is to be killed). Idle: no change.
    pub fn request_stop(&mut self) -> (r: bool)
        ensures
            r == old(self)@.running,
            final(self)@ == after_stop(old(self)@),
            runner_inv(old(self)@) ==> runner_inv(final(self)@),
    {
        if self.running {
            self.stop_requested = true;
            true
        } else {
            false
        }
    }

    /// What pausing (`paused`) or resuming asks of the disk.
    pub fn toggle_pause(&self, paused: bool) -> (r: Result<PauseAction, PauseError>)
        ensures
            match pause_error(self@) {
                Some(e) => r == Err::<PauseAction, PauseError>(e),
                None => match r {
                    Ok(PauseAction::CreateFlag(p)) => paused && Some(p@) == self@.pause_flag,
                    Ok(PauseAction::RemoveFlag(p)) => !paused && Some(p@) == self@.pause_flag,
                    Err(_) => false,
                },
            },
    {
        if !self.running {
            return Err(PauseError::NotRunning);
        }
        match &self.pause_flag {
            None => Err(PauseError::FlagPathMissing),
            Some(p) => {
                if paused {
                    Ok(PauseAction::CreateFlag(p.clone()))
                } else {
                    Ok(PauseAction::RemoveFlag(p.clone()))
                }
            },
        }
    }

    /// Cleanup at the end of a run: back to idle. Returns the pause flag path
    /// the run had, whose file the host deletes.
    pub fn finish_run(&mut self) -> (r: Option<String>)
        ensures
            final(self)@ == idle_view(),
            runner_inv(final(self)@),
            r == old(self).pause_flag,
    {
        self.running = false;
        self.stop_requested = false;
        let r = self.pause_flag.take();
        r
    }
}

/// A start with no input folders is refused whatever the state, and leaves
/// the state, so an idle runner stays idle.
pub proof fn lemma_start_without_folders_refused(s: RunnerView, preflight_ready: bool, flag: Seq<char>)
    ensures
        start_rejection(s, 0, preflight_ready) == Some(RejectReason::NoInputFolders),
        after_start(s, 0, preflight_ready, flag) == s,
        !s.running ==> !after_start(s, 0, preflight_ready, flag).running,
{
}

/// Start is exclusive: once a start is accepted, every further start with
/// folders is refused as already running, until the run is cleaned up.
pub proof fn lemma_start_exclusive(
    s: RunnerView,
    n1: nat,
    ready1: bool,
    flag1: Seq<char>,
    n2: nat,
    ready2: bool,
    flag2: Seq<char>,
)
    requires
        start_rejection(s, n1, ready1) is None,
        n2 > 0,
    ensures
        start_rejection(after_start(s, n1, ready1, flag1), n2, ready2) == Some(RejectReason::AlreadyRunning),
        after_start(after_start(s, n1, ready1, flag1), n2, ready2, flag2) == after_start(s, n1, ready1, flag1),
{
}

/// The pause flag file is the pause state: while a run is active, the
/// status reports paused exactly when the file exists; pausing asks for the
/// file at the run's flag path and resuming for its removal, after which
/// the status is not paused.
pub proof fn lemma_pause_is_flag_file(s: RunnerView, flag_file_exists: bool)
    requires
        s.running,
        s.pause_flag is Some,
    ensures
        pause_error(s) is None,
        status_of(s, flag_file_exists).paused == flag_file_exists,
        !status_of(s, false).paused,
{
}

/// Stop while idle changes nothing and reports not running.
pub proof fn lemma_stop_when_idle(s: RunnerView, flag_file_exists: bool)
    requires
        runner_inv(s),
        !s.running,
    ensures
        after_stop(s) == s,
        status_of(after_stop(s), flag_file_exists) == (RunnerStatus {
            running: false,
            paused: false,
            stop_requested: s.stop_requested,
        }),
{
}

/// After cleanup the status is all clear, whatever the disk holds, and a
/// fresh start with folders and a ready preflight is accepted.
pub proof fn lemma_finish_then_restart(n: nat, flag: Seq<char>, flag_file_exists: bool)
    requires
        n > 0,
    ensures
        status_of(idle_view(), flag_file_exists) == (RunnerStatus {
            running: false,
            paused: false,
            stop_requested: false,
        }),
        start_rejection(idle_view(), n, true) is None,
        after_start(idle_view(), n, true, flag).running,
{
}

} // verus!
