//! How a directory tree is walked: which directories are entered.

use vstd::prelude::*;

verus! {

/// How deep a search goes.
#[derive(Clone, Copy, Debug, PartialEq, Eq, PartialOrd, Ord, Hash)]
pub enum SearchOption {
    /// The entries of the directory itself.
    TopOnly,
    /// The entries of the directory and of every directory below it.
    Recursive,
}

/// What reading the directory on top of the stack gave.
#[derive(Clone, Copy, Debug, PartialEq, Eq)]
pub enum Reading {
    /// The directory has no more entries.
    Exhausted,
    /// Reading failed.
    Failed,
    /// An entry, which is a directory or not.
    Entry { is_directory: bool },
}

/// What the walk does with a reading.
#[derive(Clone, Copy, Debug, PartialEq, Eq)]
pub enum Step {
    /// Leave the directory on top of the stack and read on in the one
    /// below it.
    Leave,
    /// Hand the failure out.
    Fail,
    /// Hand the entry out, after putting it on the stack where `enter` says so.
    Yield { enter: bool },
}

impl SearchOption {
    /// Whether directories are entered.
    pub fn is_recursive(self) -> (r: bool)
        ensures
            r == (self == SearchOption::Recursive),
    {
        match self {
            SearchOption::Recursive => true,
            SearchOption::TopOnly => false,
        }
    }
}

/// The step that follows a reading: an exhausted directory is left, a
/// failure and an entry are handed out, and an entry is entered where it
/// is a directory and the search is recursive.
pub fn next_step(recursive: bool, reading: Reading) -> (r: Step)
    ensures
        r == match reading {
            Reading::Exhausted => Step::Leave,
            Reading::Failed => Step::Fail,
            Reading::Entry { is_directory } => Step::Yield { enter: recursive && is_directory },
        },
{
    match reading {
        Reading::Exhausted => Step::Leave,
        Reading::Failed => Step::Fail,
        Reading::Entry { is_directory } => Step::Yield { enter: recursive && is_directory },
    }
}

} // verus!
