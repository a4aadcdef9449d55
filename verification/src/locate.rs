//! Finding the marker file by going up from the working directory.
//!
//! The search looks into one directory after the other. The caller probes
//! each directory and is told what to do next.

use crate::error::{Error, Failure};
use vstd::prelude::*;

verus! {

/// The name of the marker file.
pub fn marker_file() -> (name: String)
    ensures
        name@ == "cmakr.toml"@,
{
    "cmakr.toml".to_owned()
}

/// What the search does after a directory has been probed.
#[derive(Debug, Clone, Copy, PartialEq, Eq, Structural)]
pub enum Search {
    /// The marker file lies in the probed directory.
    Found,
    /// Go on in the parent of the probed directory.
    Ascend,
    /// The probed directory has no parent: there is no marker file.
    GiveUp,
}

/// The move after a directory has been probed.
pub open spec fn next_move(marker_present: bool, has_parent: bool) -> Search {
    if marker_present {
        Search::Found
    } else if has_parent {
        Search::Ascend
    } else {
        Search::GiveUp
    }
}

/// Decides how the search goes on after a directory has been probed:
/// `marker_present` says whether the marker file lies in it, `has_parent`
/// whether it has a parent directory.
pub fn locate_step(marker_present: bool, has_parent: bool) -> (search: Search)
    ensures
        search == next_move(marker_present, has_parent),
{
    if marker_present {
        Search::Found
    } else if has_parent {
        Search::Ascend
    } else {
        Search::GiveUp
    }
}

/// Searches a chain of directories that starts at the working directory
/// and lists each directory's parent after it, up to the root. `present`
/// says for each directory whether the marker file lies in it.
///
/// The result is the place of the nearest directory with a marker file, and
/// [`Error::ConfigNotFound`] where no directory of the chain has one.
pub fn locate_in(present: &Vec<bool>) -> (located: Result<usize, Error>)
    ensures
        match located {
            Ok(place) => place < present@.len() && present@[place as int] && forall|j: int|
                0 <= j < place ==> !present@[j],
            Err(error) => error@ == Failure::ConfigNotFound && forall|j: int|
                0 <= j < present@.len() ==> !present@[j],
        },
{
    let mut place: usize = 0;
    while place < present.len()
        invariant
            place <= present@.len(),
            forall|j: int| 0 <= j < place ==> !present@[j],
        decreases present@.len() - place,
    {
        match locate_step(present[place], place + 1 < present.len()) {
            Search::Found => {
                return Ok(place);
            },
            Search::Ascend => {
                place += 1;
            },
            Search::GiveUp => {
                return Err(Error::ConfigNotFound);
            },
        }
    }
    Err(Error::ConfigNotFound)
}

} // verus!
