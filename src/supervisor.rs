//! Decisions of the supervisory loop of one run. The host spawns, polls,
//! kills and sleeps; after each event it asks this state machine what
//! comes next, and it ends the run with the outcome recorded here.

use vstd::prelude::*;
use vstd::string::StringExecFns;
use crate::text::{concat, decimal_text, i64_text};

verus! {

/// The one-shot outcome of a run.
#[derive(Debug)]
pub struct FinishEvent {
    pub success: bool,
    pub code: i32,
    pub message: String,
}

/// Progress notice: folder `index` (from 1) of `total` begins.
#[derive(Clone, Copy, Debug, PartialEq, Eq, Structural)]
pub struct StageEvent {
    pub index: usize,
    pub total: usize,
}

/// What a non-blocking wait on the job reported.
#[derive(Debug)]
pub enum WaitStatus {
    /// Still running.
    Running,
    /// Exited, with the code the platform reported, if any.
    Exited(Option<i32>),
    /// The wait itself failed.
    WaitFailed,
    /// No job was attached.
    NoProcess,
}

/// What the loop does after asking for the next folder.
#[derive(Debug)]
pub enum NextStep {
    /// Emit this stage and run the folder.
    Stage(StageEvent),
    /// The run is over; its outcome is recorded.
    Finished,
}

/// Progress of one run over `total` folders.
#[derive(Debug)]
pub struct RunProgress {
    pub total: usize,
    /// Folders whose job exited with code 0.
    pub completed: usize,
    /// Set once, when the run ends.
    pub finish: Option<FinishEvent>,
}

pub open spec fn finish_is(f: Option<FinishEvent>, success: bool, code: int, message: Seq<char>) -> bool {
    f is Some && f->Some_0.success == success && f->Some_0.code == code && f->Some_0.message@ == message
}

pub open spec fn exit_failure_message(code: int, stop_requested: bool) -> Seq<char> {
    if stop_requested {
        "Stopped by user."@
    } else {
        "Folder run failed (exit code "@ + decimal_text(code) + ")."@
    }
}

/// The exit code a wait stands for, once the job is gone: the reported
/// code, or 1 where none was reported, the wait failed or no job was attached.
pub open spec fn exit_code_spec(w: WaitStatus) -> Option<i32> {
    match w {
        WaitStatus::Running => None,
        WaitStatus::Exited(Some(c)) => Some(c),
        _ => Some(1i32),
    }
}

pub fn exit_code_of(wait: &WaitStatus) -> (r: Option<i32>)
    ensures
        r == exit_code_spec(*wait),
{
    match wait {
        WaitStatus::Running => None,
        WaitStatus::Exited(Some(c)) => Some(*c),
        _ => Some(1),
    }
}

/// Whether the poll loop kills the job now: a stop is pending and a job
/// is attached. Killing is idempotent, so this may hold on every round.
pub fn kill_pending(stop_requested: bool, process_attached: bool) -> (r: bool)
    ensures
        r == (stop_requested && process_attached),
{
    stop_requested && process_attached
}

impl RunProgress {
    pub open spec fn wf(&self) -> bool {
        self.completed <= self.total
    }

    /// Whether the run is between folders or inside one, not yet over.
    pub open spec fn active(&self) -> bool {
        self.wf() && self.finish is None
    }

    pub fn new(total: usize) -> (r: RunProgress)
        ensures
            r.total == total,
            r.completed == 0,
            r.finish is None,
    {
        RunProgress { total, completed: 0, finish: None }
    }

    /// Before a folder: ends the run when all folders are done, or when a
    /// stop was requested (code 130); else hands out the folder's stage.
    pub fn next_folder(&mut self, stop_requested: bool) -> (r: NextStep)
        requires
            old(self).active(),
        ensures
            final(self).total == old(self).total,
            final(self).completed == old(self).completed,
            old(self).completed == old(self).total ==> r is Finished && finish_is(
                final(self).finish,
                true,
                0,
                "Transcription complete."@,
            ),
            old(self).completed < old(self).total && stop_requested ==> r is Finished && finish_is(
                final(self).finish,
                false,
                130,
                "Stopped by user before next folder."@,
            ),
            old(self).completed < old(self).total && !stop_requested ==> final(self).finish is None && r
                == NextStep::Stage(StageEvent { index: (old(self).completed + 1) as usize, total: old(self).total }),
    {
        if self.completed == self.total {
            self.finish = Some(
                FinishEvent { success: true, code: 0, message: String::from_str("Transcription complete.") },
            );
            NextStep::Finished
        } else if stop_requested {
            self.finish = Some(
                FinishEvent {
                    success: false,
                    code: 130,
                    message: String::from_str("Stopped by user before next folder."),
                },
            );
            NextStep::Finished
        } else {
            NextStep::Stage(StageEvent { index: self.completed + 1, total: self.total })
        }
    }

    /// The batch script could not be resolved: the run ends with code 1 and
    /// the resolution error as its message, before any folder.
    pub fn script_failed(&mut self, error: &str)
        requires
            old(self).active(),
        ensures
            final(self).total == old(self).total,
            final(self).completed == old(self).completed,
            finish_is(final(self).finish, false, 1, error@),
    {
        self.finish = Some(FinishEvent { success: false, code: 1, message: String::from_str(error) });
    }

    /// The current folder's job could not be started: the run ends with code 1.
    pub fn spawn_failed(&mut self, error: &str)
        requires
            old(self).active(),
            old(self).completed < old(self).total,
        ensures
            final(self).total == old(self).total,
            final(self).completed == old(self).completed,
            finish_is(final(self).finish, false, 1, "Failed to start PowerShell process: "@ + error@),
    {
        self.finish = Some(
            FinishEvent {
                success: false,
                code: 1,
                message: concat("Failed to start PowerShell process: ", error),
            },
        );
    }

    /// The current folder's job exited with `code`. Zero: the folder is
    /// complete. Otherwise the run ends with that code, the message telling a
    /// stop by the user from a failure.
    pub fn folder_exited(&mut self, code: i32, stop_requested: bool)
        requires
            old(self).active(),
            old(self).completed < old(self).total,
        ensures
            final(self).total == old(self).total,
            code == 0 ==> final(self).completed == old(self).completed + 1 && final(self).finish is None,
            code != 0 ==> final(self).completed == old(self).completed && finish_is(
                final(self).finish,
                false,
                code as int,
                exit_failure_message(code as int, stop_requested),
            ),
    {
        if code == 0 {
            self.completed = self.completed + 1;
        } else {
            let message = if stop_requested {
                String::from_str("Stopped by user.")
            } else {
                let d = i64_text(code as i64);
                let a = concat("Folder run failed (exit code ", d.as_str());
                concat(a.as_str(), ").")
            };
            proof {
                if !stop_requested {
                    assert(message@ =~= exit_failure_message(code as int, stop_requested));
                }
            }
            self.finish = Some(FinishEvent { success: false, code, message });
        }
    }
}

} // verus!
