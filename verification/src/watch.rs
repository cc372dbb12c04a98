//! The watch loop: what an event from the watcher asks for.
//!
//! Only one kind of event moves files: a file that was open for writing has
//! been closed, so its writer is done with it. Each path of such an event is
//! filed under today's folder, one by one; a path that cannot be filed does
//! not stop the ones that follow.
//!
//! Between two notifications the loop is idle. When one comes it is handled
//! to the end, by the plan that [`added_to_folder`] makes for it, before the
//! next is taken; then the loop is idle again. Nothing ends the loop.

use crate::date::{today, CalendarDate, Ymd};
use crate::folder::{filing_folder, generate_date_folder_path_on, FolderError, HomeDir};
use crate::relocate::{destination_of, plan_relocation, Relocation};
use vstd::prelude::*;

verus! {

/// How a file was opened.
#[derive(Clone, Copy, Debug, PartialEq, Eq, Structural)]
pub enum AccessMode {
    Any,
    Execute,
    Read,
    Write,
    Other,
}

/// How a file was touched without being changed.
#[derive(Clone, Copy, Debug, PartialEq, Eq, Structural)]
pub enum AccessKind {
    Any,
    Read,
    Open(AccessMode),
    Close(AccessMode),
    Other,
}

/// What happened to the files of an event.
#[derive(Clone, Copy, Debug, PartialEq, Eq, Structural)]
pub enum EventKind {
    Any,
    Access(AccessKind),
    Create,
    Modify,
    Remove,
    Other,
}

/// An event from the watcher: what happened, and to which paths.
#[derive(Clone, Debug, PartialEq, Eq)]
pub struct WatchEvent {
    pub kind: EventKind,
    pub paths: Vec<String>,
}

/// What the loop does about one path of an event.
#[derive(Clone, Debug, PartialEq, Eq)]
pub enum WatchStep {
    /// The path names no file: it is passed over.
    Skip { path: String },
    /// The file is renamed.
    Rename(Relocation),
}

/// What the loop does about one notification from the watcher.
#[derive(Clone, Debug, PartialEq, Eq)]
pub enum WatchPlan {
    /// The watcher reported an error. It is logged, and the loop goes on.
    Failed { cause: String },
    /// An event of a kind that moves no files.
    Ignored,
    /// There is no folder to file under.
    Unresolved(FolderError),
    /// Make sure that `folder` exists, then take the steps in turn, each
    /// whether or not the one before it succeeded.
    Handle { folder: String, steps: Vec<WatchStep> },
}

/// Whether an event of this kind says that a file is complete: it was open
/// for writing and has been closed.
pub open spec fn is_write_closed(kind: EventKind) -> bool {
    kind == EventKind::Access(AccessKind::Close(AccessMode::Write))
}

/// Whether `step` is what the loop does about `path` when files go to
/// `folder`.
pub open spec fn is_step_for(step: WatchStep, path: Seq<char>, folder: Seq<char>) -> bool {
    match destination_of(path, folder) {
        None => step matches WatchStep::Skip { path: skipped } && skipped@ == path,
        Some(destination) => step matches WatchStep::Rename(relocation) && relocation.source@
            == path && relocation.destination@ == destination,
    }
}

/// Whether `steps` are what the loop does about `paths`, one step for each
/// path and in the order of the paths.
pub open spec fn are_steps_for(steps: Seq<WatchStep>, paths: Seq<String>, folder: Seq<char>) -> bool {
    &&& steps.len() == paths.len()
    &&& forall|i: int| 0 <= i < steps.len() ==> is_step_for(#[trigger] steps[i], paths[i]@, folder)
}

/// Whether `plan` is what the loop does about `notification` for a home
/// directory and a day.
pub open spec fn is_plan_for(
    plan: WatchPlan,
    notification: Result<WatchEvent, String>,
    home: HomeDir,
    date: Ymd,
) -> bool {
    match notification {
        Err(error) => plan matches WatchPlan::Failed { cause } && cause@ == error@,
        Ok(event) => if !is_write_closed(event.kind) {
            plan is Ignored
        } else {
            match filing_folder(home, date) {
                Err(error) => plan == WatchPlan::Unresolved(error),
                Ok(into) => plan matches WatchPlan::Handle { folder, steps } && folder@ == into
                    && are_steps_for(steps@, event.paths@, into),
            }
        },
    }
}

/// Whether an event of this kind says that a file is complete.
pub fn write_closed(kind: EventKind) -> (closed: bool)
    ensures
        closed == is_write_closed(kind),
{
    match kind {
        EventKind::Access(AccessKind::Close(AccessMode::Write)) => true,
        _ => false,
    }
}

/// What the loop does about one path when files go to `folder`.
pub fn step_for(path: &str, folder: &str) -> (step: WatchStep)
    ensures
        is_step_for(step, path@, folder@),
{
    match plan_relocation(path, folder) {
        Ok(relocation) => WatchStep::Rename(relocation),
        Err(_) => WatchStep::Skip { path: path.to_owned() },
    }
}

/// What the loop does about a notification that comes on the day `date`.
///
/// An error of the watcher is handed back to be logged. An event of another
/// kind than a close after writing is ignored. For any other event the folder
/// of the day is worked out, and each of the event's paths gets its step.
pub fn added_to_folder_on(
    notification: &Result<WatchEvent, String>,
    home: &HomeDir,
    date: &CalendarDate,
) -> (plan: WatchPlan)
    ensures
        is_plan_for(plan, *notification, *home, date@),
{
    match notification {
        Err(error) => WatchPlan::Failed { cause: error.clone() },
        Ok(event) => {
            if !write_closed(event.kind) {
                return WatchPlan::Ignored;
            }
            match generate_date_folder_path_on(home, date) {
                Err(error) => WatchPlan::Unresolved(error),
                Ok(folder) => {
                    let mut steps: Vec<WatchStep> = Vec::new();
                    let mut i: usize = 0;
                    while i < event.paths.len()
                        invariant
                            i <= event.paths.len(),
                            are_steps_for(steps@, event.paths@.take(i as int), folder@),
                        decreases event.paths.len() - i,
                    {
                        let step = step_for(event.paths[i].as_str(), folder.as_str());
                        steps.push(step);
                        i += 1;
                    }
                    assert(event.paths@.take(i as int) =~= event.paths@);
                    WatchPlan::Handle { folder, steps }
                },
            }
        },
    }
}

/// What the loop does about a notification that comes now.
///
/// The day is read from the clock, so the contract says what holds whatever
/// day it is: the plan is that of [`added_to_folder_on`] for some day of the
/// calendar.
pub fn added_to_folder(notification: &Result<WatchEvent, String>, home: &HomeDir) -> (plan:
    WatchPlan)
    ensures
        exists|date: Ymd| date.valid() && is_plan_for(plan, *notification, *home, date),
{
    let date = today();
    added_to_folder_on(notification, home, &date)
}

/// The directory to watch, from the arguments of the daemon: the one
/// argument behind the program's name. With any other number of arguments
/// there is none.
pub fn watched_root(args: &Vec<String>) -> (root: Option<String>)
    ensures
        root.is_some() == (args.len() == 2),
        root matches Some(path) ==> path == args[1],
{
    if args.len() == 2 {
        Some(args[1].clone())
    } else {
        None
    }
}

/// What the daemon says where it was started with the wrong number of
/// arguments.
pub fn daemon_usage() -> (text: String)
    ensures
        text@ == "needs 2 arguments called binary and path to folder to watch"@,
{
    String::from_str("needs 2 arguments called binary and path to folder to watch")
}

} // verus!
