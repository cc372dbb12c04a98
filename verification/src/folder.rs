//! The folder of a day: `<home>/.diary/<YYYY-MM-DD>/`.

use crate::date::{
    is_date_char, lemma_iso_text_shape, lemma_iso_text_tells_days_apart, today, CalendarDate, Ymd,
};
use crate::path::{
    file_name_of, is_absolute, is_plain_name, join, joined, lemma_file_name_after_directory,
    SEPARATOR,
};
use vstd::prelude::*;

verus! {

/// What is known of the user's home directory.
#[derive(Clone, Debug, PartialEq, Eq)]
pub enum HomeDir {
    /// It names none.
    Unavailable,
    /// It names one whose path is no text.
    NotText,
    /// It names the directory with this path.
    Path(String),
}

/// Why a day has no folder.
#[derive(Clone, Copy, Debug, PartialEq, Eq, Structural)]
pub enum FolderError {
    /// The home directory is not known.
    HomeDirUnavailable,
    /// The folder's path cannot be written as text.
    PathNotText,
}

/// The folder of a day, as seen from the home directory.
pub open spec fn folder_in_home(date: Ymd) -> Seq<char> {
    ".diary/"@ + date.text() + seq![SEPARATOR]
}

/// The folder of a day for a user at home in `home`.
pub open spec fn date_folder(home: Seq<char>, date: Ymd) -> Seq<char> {
    joined(home, folder_in_home(date))
}

/// The folder of a day, or why it has none.
pub open spec fn resolved(home: HomeDir, date: Ymd) -> Result<Seq<char>, FolderError> {
    match home {
        HomeDir::Unavailable => Err(FolderError::HomeDirUnavailable),
        HomeDir::NotText => Err(FolderError::PathNotText),
        HomeDir::Path(path) => Ok(date_folder(path@, date)),
    }
}

/// The folder that files go to on a day: the day's folder, and the working
/// directory, `./`, where the day's folder cannot be written as text.
pub open spec fn filing_folder(home: HomeDir, date: Ymd) -> Result<Seq<char>, FolderError> {
    match home {
        HomeDir::Unavailable => Err(FolderError::HomeDirUnavailable),
        HomeDir::NotText => Ok("./"@),
        HomeDir::Path(path) => Ok(date_folder(path@, date)),
    }
}

/// The text of a day can be the name of a directory.
pub proof fn lemma_day_is_plain_name(date: Ymd)
    ensures
        is_plain_name(date.text()),
{
    let text = date.text();
    lemma_iso_text_shape(date.year, date.month, date.day);
    if text.contains(SEPARATOR) {
        let i = choose|i: int| 0 <= i < text.len() && text[i] == SEPARATOR;
        assert(is_date_char(text[i]));
    }
}

/// The last directory of a day's folder is named for the day, whatever the
/// home directory is.
pub proof fn lemma_date_folder_is_named_for_its_day(home: Seq<char>, date: Ymd)
    ensures
        file_name_of(date_folder(home, date)) == Some(date.text()),
        date_folder(home, date).len() > 0,
        date_folder(home, date).last() == SEPARATOR,
{
    reveal_strlit(".diary/");
    let tail = folder_in_home(date);
    assert(tail[0] == '.');
    assert(!is_absolute(tail));
    let base = if home.len() == 0 || home.last() == SEPARATOR {
        home
    } else {
        home + seq![SEPARATOR]
    };
    let front = base + ".diary/"@;
    assert(front.last() == SEPARATOR);
    assert(date_folder(home, date) =~= front + date.text() + seq![SEPARATOR]);
    lemma_day_is_plain_name(date);
    lemma_file_name_after_directory(front, date.text());
}

/// Two days of the calendar never share a folder.
pub proof fn lemma_each_day_has_its_own_folder(home: Seq<char>, a: Ymd, b: Ymd)
    requires
        a.valid(),
        b.valid(),
        a != b,
    ensures
        date_folder(home, a) != date_folder(home, b),
{
    lemma_date_folder_is_named_for_its_day(home, a);
    lemma_date_folder_is_named_for_its_day(home, b);
    if a.text() == b.text() {
        lemma_iso_text_tells_days_apart(a, b);
    }
}

/// The folder of the day `date` for a user whose home directory is `home`.
///
/// There is none where the home directory is not known or has no path in
/// text. Nothing is made on disk here: the caller makes the directory.
pub fn resolve(home: &HomeDir, date: &CalendarDate) -> (folder: Result<String, FolderError>)
    ensures
        folder matches Ok(path) ==> resolved(*home, date@) == Ok::<Seq<char>, FolderError>(path@),
        folder matches Err(error) ==> resolved(*home, date@) == Err::<Seq<char>, FolderError>(
            error,
        ),
        folder matches Ok(path) ==> file_name_of(path@) == Some(date@.text()),
{
    match home {
        HomeDir::Unavailable => Err(FolderError::HomeDirUnavailable),
        HomeDir::NotText => Err(FolderError::PathNotText),
        HomeDir::Path(path) => {
            let mut tail = String::from_str(".diary/");
            let day = date.text();
            tail.append(day.as_str());
            proof {
                reveal_strlit("/");
                assert("/"@ =~= seq![SEPARATOR]);
                lemma_date_folder_is_named_for_its_day(path@, date@);
            }
            tail.append("/");
            Ok(join(path.as_str(), tail.as_str()))
        },
    }
}

/// The folder that files go to on the day `date`: the day's folder, and the
/// working directory `./` where the home directory has no path in text.
pub fn generate_date_folder_path_on(home: &HomeDir, date: &CalendarDate) -> (folder: Result<
    String,
    FolderError,
>)
    ensures
        folder matches Ok(path) ==> filing_folder(*home, date@) == Ok::<Seq<char>, FolderError>(
            path@,
        ),
        folder matches Err(error) ==> filing_folder(*home, date@) == Err::<Seq<char>, FolderError>(
            error,
        ),
{
    match resolve(home, date) {
        Ok(path) => Ok(path),
        Err(FolderError::PathNotText) => Ok(String::from_str("./")),
        Err(FolderError::HomeDirUnavailable) => Err(FolderError::HomeDirUnavailable),
    }
}

/// The folder that files go to today.
///
/// The day is read from the clock, so the contract says what holds whatever
/// day it is: the folder is the one that [`generate_date_folder_path_on`]
/// gives for some day of the calendar.
pub fn generate_date_folder_path(home: &HomeDir) -> (folder: Result<String, FolderError>)
    ensures
        exists|date: Ymd|
            date.valid() && match folder {
                Ok(path) => filing_folder(*home, date) == Ok::<Seq<char>, FolderError>(path@),
                Err(error) => filing_folder(*home, date) == Err::<Seq<char>, FolderError>(error),
            },
{
    let date = today();
    generate_date_folder_path_on(home, &date)
}

} // verus!
