//! The orchestrator of a run: it has the diagnostic tree rebuilt, gathers
//! the results of the workers into the report and counts them.

use crate::outcome::Diff;
use crate::paths::{joined, test_folders_pattern, DIFF_FOLDER, LATEST_FOLDER};
use crate::report::{cases_in, collect, passed_cases_in, summarize, Summary};
use crate::table::{put, Table};
use crate::worker::{records_of, Worker};
use vstd::prelude::*;
use vstd::string::*;

verus! {

/// What the run is waiting for.
#[derive(Debug, Clone, Copy, PartialEq, Eq, Structural)]
pub enum RunPhase {
    /// The removal of the old diagnostic tree.
    Resetting,
    /// The next worker, or the end of the test folders.
    Collecting,
    /// Nothing: the report is complete.
    Finished,
    /// Nothing: the run was given up and has no report.
    Failed,
}

/// What happened outside since the last action.
#[derive(Debug)]
pub enum RunEvent {
    /// The diagnostic tree was removed.
    TreeRemoved,
    /// There was no diagnostic tree to remove.
    TreeAbsent,
    /// A worker has come to its end; this is its last state.
    Folder(Worker),
    /// Every test folder's worker was handed in.
    NoMoreFolders,
    /// The last action failed.
    Failed,
}

/// What the caller is to do next.
#[derive(Debug)]
pub enum RunAction {
    /// Remove `folder` with all that is in it; its absence is no failure.
    RemoveTree { folder: String },
    /// List what matches `pattern`, run a worker on each match and hand the
    /// first one in.
    RunWorkers { pattern: String },
    /// Hand the next worker in.
    NextFolder,
    /// Write the report and print the counts.
    Publish { summary: Summary },
    /// Give the run up.
    Abort,
}

/// The state of a run.
#[derive(Debug)]
pub struct Run {
    /// The results gathered so far, by test folder.
    pub report: Table<Table<Diff>>,
    pub phase: RunPhase,
}

impl Run {
    /// What holds of a run in every state that it reaches from its start
    /// when the workers handed in are consistent: every record of every
    /// test folder is one that its case in that folder can have.
    pub open spec fn consistent(self) -> bool {
        forall|test: Seq<char>| #[trigger]
            self.report.as_map().contains_key(test) ==> records_of(
                self.report.as_map()[test],
                test,
            )
    }

    /// The run is given up; what was gathered stays as it was.
    pub open spec fn gives_up(self, next: Run, action: RunAction) -> bool {
        &&& next.report == self.report
        &&& next.phase == RunPhase::Failed
        &&& action is Abort
    }

    /// The transition relation: on `event` the run becomes `next` and asks
    /// for `action`.
    pub open spec fn steps_to(self, event: RunEvent, next: Run, action: RunAction) -> bool {
        match (self.phase, event) {
            (RunPhase::Resetting, RunEvent::TreeRemoved) | (
                RunPhase::Resetting,
                RunEvent::TreeAbsent,
            ) => {
                &&& next.report == self.report
                &&& next.phase == RunPhase::Collecting
                &&& action matches RunAction::RunWorkers { pattern }
                &&& pattern@ == joined(LATEST_FOLDER@, "*"@)
            },
            (RunPhase::Collecting, RunEvent::Folder(worker)) => {
                if worker.phase is Done {
                    &&& put(self.report@, worker.test_name@, worker.results, next.report@)
                    &&& next.report.as_map() == self.report.as_map().insert(
                        worker.test_name@,
                        worker.results,
                    )
                    &&& next.phase == RunPhase::Collecting
                    &&& action is NextFolder
                } else {
                    self.gives_up(next, action)
                }
            },
            (RunPhase::Collecting, RunEvent::NoMoreFolders) => {
                if cases_in(self.report@) <= usize::MAX {
                    &&& next.report == self.report
                    &&& next.phase == RunPhase::Finished
                    &&& action matches RunAction::Publish { summary }
                    &&& summary.total == cases_in(self.report@)
                    &&& summary.passed == passed_cases_in(self.report@)
                } else {
                    self.gives_up(next, action)
                }
            },
            _ => self.gives_up(next, action),
        }
    }

    /// A run before its first event: the report is empty, and the first
    /// thing asked for is the removal of the diagnostic tree.
    pub fn start() -> (r: (Run, RunAction))
        ensures
            r.0.report@.len() == 0,
            r.0.consistent(),
            r.0.phase == RunPhase::Resetting,
            r.1 matches RunAction::RemoveTree { folder } && folder@ == DIFF_FOLDER@,
    {
        (
            Run { report: Table::new(), phase: RunPhase::Resetting },
            RunAction::RemoveTree { folder: String::from_str(DIFF_FOLDER) },
        )
    }

    /// One transition: takes what happened outside and says what to do next.
    /// A worker that is not done, a failure, or an event that the phase does
    /// not wait for makes the run fail.
    pub fn step(self, event: RunEvent) -> (r: (Run, RunAction))
        ensures
            self.steps_to(event, r.0, r.1),
    {
        let Run { report, phase } = self;
        match (phase, event) {
            (RunPhase::Resetting, RunEvent::TreeRemoved) | (
                RunPhase::Resetting,
                RunEvent::TreeAbsent,
            ) => (
                Run { report, phase: RunPhase::Collecting },
                RunAction::RunWorkers { pattern: test_folders_pattern() },
            ),
            (RunPhase::Collecting, RunEvent::Folder(worker)) => {
                match collect(report, worker) {
                    Ok(merged) => (
                        Run { report: merged, phase: RunPhase::Collecting },
                        RunAction::NextFolder,
                    ),
                    Err(report) => (Run { report, phase: RunPhase::Failed }, RunAction::Abort),
                }
            },
            (RunPhase::Collecting, RunEvent::NoMoreFolders) => {
                match summarize(&report) {
                    Some(summary) => (
                        Run { report, phase: RunPhase::Finished },
                        RunAction::Publish { summary },
                    ),
                    None => (Run { report, phase: RunPhase::Failed }, RunAction::Abort),
                }
            },
            (_, _) => (Run { report, phase: RunPhase::Failed }, RunAction::Abort),
        }
    }
}

} // verus!
