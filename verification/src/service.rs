//! The service: the folder that it keeps in mind, and what it does and
//! answers when it is called.
//!
//! The service touches nothing outside itself. A call that needs the disk
//! gives back a step for the caller to carry out.

use crate::date::{today, CalendarDate, Ymd};
use crate::folder::{
    date_folder, filing_folder, generate_date_folder_path_on,
    lemma_date_folder_is_named_for_its_day, lemma_each_day_has_its_own_folder, resolve, resolved,
    FolderError, HomeDir,
};
use crate::path::file_name_of;
use crate::relocate::{destination_of, plan_relocation, Relocation, RelocationError};
use vstd::prelude::*;

verus! {

/// The service's state: the folder of the day it last filed under.
#[derive(Debug)]
pub struct Diary {
    date_folder: String,
}

impl View for Diary {
    type V = Seq<char>;

    closed spec fn view(&self) -> Seq<char> {
        self.date_folder@
    }
}

/// A call on the service, with what the world holds when it is made: the
/// user's home directory and the day.
pub enum Call {
    /// `move_file` with a path.
    MoveFile { path: Seq<char>, home: HomeDir, date: Ymd },
    /// `get_date_folder`.
    GetDateFolder,
    /// `update_date`.
    UpdateDate { home: HomeDir, date: Ymd },
    /// A read of the folder property.
    DateFolder,
    /// A write of the folder property.
    SetDateFolder { name: Seq<char> },
}

/// The folder that the service keeps in mind after a call, where it kept
/// `before` in mind when the call came.
pub open spec fn folder_after(before: Seq<char>, call: Call) -> Seq<char> {
    match call {
        Call::MoveFile { home, date, .. } => match filing_folder(home, date) {
            Ok(folder) => folder,
            Err(_) => before,
        },
        Call::UpdateDate { home, date } => match resolved(home, date) {
            Ok(folder) => folder,
            Err(_) => before,
        },
        Call::SetDateFolder { name } => name,
        Call::GetDateFolder => before,
        Call::DateFolder => before,
    }
}

/// The folder that the service keeps in mind before it has filed anything.
pub open spec fn placeholder() -> Seq<char> {
    "test"@
}

/// What the service says of a move that ended in `outcome`.
pub open spec fn status_text(outcome: Result<(), RelocationError>) -> Seq<char> {
    match outcome {
        Ok(_) => "Moved File Successfully"@,
        Err(RelocationError::NoFileName) => "File Doesn't Exist"@,
        Err(RelocationError::MoveFailed(_)) => "Failed to move file"@,
    }
}

/// What the service says where it does not know the home directory.
pub open spec fn home_unknown_text() -> Seq<char> {
    "Could not find Home Directory"@
}

/// What `move_file` asks of its caller.
#[derive(Clone, Debug, PartialEq, Eq)]
pub enum MoveStep {
    /// There is no folder to file under. Answer with `reply`.
    Refused { reply: String },
    /// Make sure that `folder` exists, and answer with `reply`: the path names
    /// no file.
    NoFile { folder: String, reply: String },
    /// Make sure that `folder` exists, rename the file as `relocation` says, and
    /// answer with the status of how that ended.
    Rename { folder: String, relocation: Relocation },
}

/// Whether `step` is what `move_file` asks for a path, a home directory and
/// a day.
pub open spec fn is_move_step(step: MoveStep, path: Seq<char>, home: HomeDir, date: Ymd) -> bool {
    match filing_folder(home, date) {
        Err(_) => step matches MoveStep::Refused { reply } && reply@ == home_unknown_text(),
        Ok(into) => match destination_of(path, into) {
            None => step matches MoveStep::NoFile { folder, reply } && folder@ == into && reply@
                == status_text(Err(RelocationError::NoFileName)),
            Some(destination) => step matches MoveStep::Rename { folder, relocation } && folder@
                == into && relocation.source@ == path && relocation.destination@ == destination,
        },
    }
}

/// What `update_date` asks of its caller: to make sure that `folder` exists,
/// where there is one, and to answer with `reply`.
#[derive(Clone, Debug, PartialEq, Eq)]
pub struct UpdateStep {
    pub folder: Option<String>,
    pub reply: String,
}

/// Whether `step` is what `update_date` asks for a home directory and a day.
pub open spec fn is_update_step(step: UpdateStep, home: HomeDir, date: Ymd) -> bool {
    match resolved(home, date) {
        Ok(into) => step.folder matches Some(folder) && folder@ == into && step.reply@
            == "Successfully updated folder"@,
        Err(FolderError::HomeDirUnavailable) => step.folder.is_none() && step.reply@
            == home_unknown_text(),
        Err(FolderError::PathNotText) => step.folder.is_none() && step.reply@ == "No Path"@,
    }
}

/// Each move files under the day on which it is made: after a move on one
/// day and a move on another, the service has had each day's own folder in
/// mind in turn, whatever it had in mind before, and the two folders differ
/// where the days do.
pub proof fn lemma_each_move_follows_its_day(
    before: Seq<char>,
    home: String,
    first_path: Seq<char>,
    first: Ymd,
    second_path: Seq<char>,
    second: Ymd,
)
    ensures
        ({
            let first_call = Call::MoveFile {
                path: first_path,
                home: HomeDir::Path(home),
                date: first,
            };
            let second_call = Call::MoveFile {
                path: second_path,
                home: HomeDir::Path(home),
                date: second,
            };
            let between = folder_after(before, first_call);
            let after = folder_after(between, second_call);
            &&& between == date_folder(home@, first)
            &&& after == date_folder(home@, second)
            &&& file_name_of(between) == Some(first.text())
            &&& file_name_of(after) == Some(second.text())
            &&& first.valid() && second.valid() && first != second ==> between != after
        }),
{
    lemma_date_folder_is_named_for_its_day(home@, first);
    lemma_date_folder_is_named_for_its_day(home@, second);
    if first.valid() && second.valid() && first != second {
        lemma_each_day_has_its_own_folder(home@, first, second);
    }
}

/// Reading the folder changes nothing: the service has the same folder in
/// mind afterwards, so a second reading sees what the first saw.
pub proof fn lemma_reading_changes_nothing(before: Seq<char>)
    ensures
        folder_after(before, Call::GetDateFolder) == before,
        folder_after(before, Call::DateFolder) == before,
        folder_after(folder_after(before, Call::GetDateFolder), Call::GetDateFolder) == before,
{
}

impl Diary {
    /// A service that has filed nothing yet.
    pub fn new() -> (diary: Diary)
        ensures
            diary@ == placeholder(),
    {
        Diary { date_folder: String::from_str("test") }
    }

    /// Plans the move of the file at `path` into the folder of the day
    /// `date`, and keeps that folder in mind.
    ///
    /// The folder is worked out anew from `home` and `date`, whatever the
    /// service had in mind. Where the home directory is not known, the service
    /// keeps what it had and the move is refused.
    pub fn move_file_on(&mut self, path: &str, home: &HomeDir, date: &CalendarDate) -> (step:
        MoveStep)
        ensures
            final(self)@ == folder_after(
                old(self)@,
                Call::MoveFile { path: path@, home: *home, date: date@ },
            ),
            is_move_step(step, path@, *home, date@),
    {
        match generate_date_folder_path_on(home, date) {
            Err(_) => MoveStep::Refused {
                reply: String::from_str("Could not find Home Directory"),
            },
            Ok(folder) => {
                self.date_folder = folder.clone();
                match plan_relocation(path, folder.as_str()) {
                    Err(_) => MoveStep::NoFile {
                        folder,
                        reply: Diary::move_reply(&Err(RelocationError::NoFileName)),
                    },
                    Ok(relocation) => MoveStep::Rename { folder, relocation },
                }
            },
        }
    }

    /// Plans the move of the file at `path` into today's folder.
    ///
    /// The day is read from the clock, so the contract says what holds whatever
    /// day it is: state and step are those of [`Diary::move_file_on`] for some
    /// day of the calendar.
    pub fn move_file(&mut self, path: &str, home: &HomeDir) -> (step: MoveStep)
        ensures
            exists|date: Ymd|
                date.valid() && final(self)@ == folder_after(
                    old(self)@,
                    Call::MoveFile { path: path@, home: *home, date },
                ) && is_move_step(step, path@, *home, date),
    {
        let date = today();
        self.move_file_on(path, home, &date)
    }

    /// The reply to a move that ended in `outcome`.
    pub fn move_reply(outcome: &Result<(), RelocationError>) -> (reply: String)
        ensures
            reply@ == status_text(*outcome),
    {
        match outcome {
            Ok(_) => String::from_str("Moved File Successfully"),
            Err(RelocationError::NoFileName) => String::from_str("File Doesn't Exist"),
            Err(RelocationError::MoveFailed(_)) => String::from_str("Failed to move file"),
        }
    }

    /// The folder property: the folder that the service has in mind.
    pub fn date_folder(&self) -> (folder: String)
        ensures
            folder@ == self@,
    {
        self.date_folder.clone()
    }

    /// Sets the folder property: the service has `name` in mind from now on.
    pub fn set_date_folder(&mut self, name: String)
        ensures
            final(self)@ == folder_after(old(self)@, Call::SetDateFolder { name: name@ }),
    {
        self.date_folder = name;
    }

    /// The folder that the service has in mind. It is not worked out anew.
    pub fn get_date_folder(&self) -> (folder: String)
        ensures
            folder@ == self@,
            self@ == folder_after(self@, Call::GetDateFolder),
    {
        self.date_folder.clone()
    }

    /// Works out the folder of the day `date` and keeps it in mind.
    ///
    /// Where the home directory is not known, or the folder's path is no
    /// text, the service keeps what it had, and the reply says which it was.
    pub fn update_date_on(&mut self, home: &HomeDir, date: &CalendarDate) -> (step: UpdateStep)
        ensures
            final(self)@ == folder_after(old(self)@, Call::UpdateDate { home: *home, date: date@ }),
            is_update_step(step, *home, date@),
    {
        match resolve(home, date) {
            Ok(folder) => {
                self.date_folder = folder.clone();
                UpdateStep {
                    folder: Some(folder),
                    reply: String::from_str("Successfully updated folder"),
                }
            },
            Err(FolderError::HomeDirUnavailable) => UpdateStep {
                folder: None,
                reply: String::from_str("Could not find Home Directory"),
            },
            Err(FolderError::PathNotText) => UpdateStep {
                folder: None,
                reply: String::from_str("No Path"),
            },
        }
    }

    /// Works out today's folder and keeps it in mind.
    ///
    /// The day is read from the clock, so the contract says what holds whatever
    /// day it is: state and step are those of [`Diary::update_date_on`] for
    /// some day of the calendar.
    pub fn update_date(&mut self, home: &HomeDir) -> (step: UpdateStep)
        ensures
            exists|date: Ymd|
                date.valid() && final(self)@ == folder_after(
                    old(self)@,
                    Call::UpdateDate { home: *home, date },
                ) && is_update_step(step, *home, date),
    {
        let date = today();
        self.update_date_on(home, &date)
    }
}

} // verus!
