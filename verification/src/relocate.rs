//! Where a file goes: into a directory, under the name it has.

use crate::path::{
    file_name, file_name_of, join, joined, lemma_file_name_is_plain, lemma_file_name_of_joined,
    trimmed,
};
use vstd::prelude::*;

verus! {

/// One file to move: from where it is to where it goes.
#[derive(Clone, Debug, PartialEq, Eq)]
pub struct Relocation {
    /// The path of the file as it was given.
    pub source: String,
    /// The path that the file is to have.
    pub destination: String,
}

/// Why a file was not moved.
#[derive(Clone, Debug, PartialEq, Eq)]
pub enum RelocationError {
    /// The path ends in no name, so it names no file.
    NoFileName,
    /// The move itself failed, for this cause.
    MoveFailed(String),
}

/// The path that the file at `source` has once it is in `dest_dir`, if
/// `source` ends in a name: `dest_dir`, then that name.
pub open spec fn destination_of(source: Seq<char>, dest_dir: Seq<char>) -> Option<Seq<char>> {
    match file_name_of(source) {
        Some(name) => Some(joined(dest_dir, name)),
        None => None,
    }
}

/// A file keeps its name when it is moved: the destination ends in the name
/// that the source ends in.
pub proof fn lemma_name_is_kept(source: Seq<char>, dest_dir: Seq<char>)
    requires
        file_name_of(source).is_some(),
    ensures
        destination_of(source, dest_dir) matches Some(destination) && file_name_of(destination)
            == file_name_of(source),
{
    lemma_file_name_is_plain(source);
    lemma_file_name_of_joined(dest_dir, file_name_of(source).unwrap());
}

/// A path that ends in no name is moved nowhere.
pub proof fn lemma_no_name_no_destination(source: Seq<char>, dest_dir: Seq<char>)
    ensures
        file_name_of(source).is_none() <==> destination_of(source, dest_dir).is_none(),
        file_name_of(Seq::<char>::empty()).is_none(),
        file_name_of(seq!['/']).is_none(),
{
    assert(seq!['/'].drop_last() =~= Seq::<char>::empty());
    reveal_with_fuel(trimmed, 3);
}

/// Plans the move of the file at `source` into the directory `dest_dir`.
///
/// The file goes to `dest_dir` under the name that `source` ends in. Where
/// `source` ends in no name there is nothing to move, and the answer is
/// `NoFileName`. Nothing on disk is touched here: the caller renames
/// `source` to `destination`.
pub fn plan_relocation(source: &str, dest_dir: &str) -> (plan: Result<Relocation, RelocationError>)
    ensures
        plan.is_ok() == file_name_of(source@).is_some(),
        plan matches Ok(relocation) ==> relocation.source@ == source@ && destination_of(
            source@,
            dest_dir@,
        ) == Some(relocation.destination@),
        plan matches Ok(relocation) ==> file_name_of(relocation.destination@) == file_name_of(
            source@,
        ),
        plan matches Err(error) ==> error == RelocationError::NoFileName,
{
    match file_name(source) {
        None => Err(RelocationError::NoFileName),
        Some(name) => {
            proof {
                lemma_name_is_kept(source@, dest_dir@);
            }
            Ok(Relocation { source: source.to_owned(), destination: join(dest_dir, name.as_str()) })
        },
    }
}

} // verus!
