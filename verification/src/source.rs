//! Clones of file-backed sources.

use vstd::prelude::*;

use crate::io::{ErrorKind, IoError, IoErrorView};
use crate::text::join;

verus! {

/// A source that stands in for a clone that could not be made: every call fails
/// with the reason.
#[derive(Debug)]
pub struct CloneFailureReader {
    message: String,
}

impl View for CloneFailureReader {
    type V = Seq<char>;

    /// The reason that every call reports.
    closed spec fn view(&self) -> Seq<char> {
        self.message@
    }
}

impl CloneFailureReader {
    /// Makes a source that fails with `message`.
    pub fn new(message: String) -> (source: CloneFailureReader)
        ensures
            source@ == message@,
    {
        CloneFailureReader { message }
    }

    /// Makes the error that every read and every seek fails with.
    pub fn io_error(&self) -> (error: IoError)
        ensures
            error@ == (IoErrorView { kind: ErrorKind::Other, message: self@ }),
    {
        IoError::other(self.message.clone())
    }
}

impl Clone for CloneFailureReader {
    fn clone(&self) -> (source: CloneFailureReader)
        ensures
            source@ == self@,
    {
        CloneFailureReader { message: self.message.clone() }
    }
}

/// A clone of a file-backed source: the file opened anew, or the stand-in that
/// reports why it could not be.
pub enum FileClone<F> {
    Reopened(F),
    Failed(CloneFailureReader),
}

/// The reason reported by the clone of a file that could not be opened anew.
pub open spec fn reopen_failure(display: Seq<char>, error: Seq<char>) -> Seq<char> {
    "Failed to reopen file handle for cloneable reader '"@ + display + "': "@ + error
}

impl<F> FileClone<F> {
    /// Decides what the clone of a file-backed source is, from what came of
    /// opening the file at the path shown as `display` anew.
    pub fn from_reopened(reopened: Result<F, String>, display: &str) -> (source: FileClone<F>)
        ensures
            match reopened {
                Ok(file) => source == FileClone::Reopened(file),
                Err(error) => source matches FileClone::Failed(failed) && failed@
                    == reopen_failure(display@, error@),
            },
    {
        match reopened {
            Ok(file) => FileClone::Reopened(file),
            Err(error) => {
                let mut message = join(
                    "Failed to reopen file handle for cloneable reader '",
                    display,
                );
                message.append("': ");
                message.append(error.as_str());
                FileClone::Failed(CloneFailureReader::new(message))
            },
        }
    }
}

/// Law: the stand-in for a clone that could not be made names the file and gives the
/// system's reason, both in full.
pub proof fn law_reopen_failure_says_what_and_why(display: Seq<char>, error: Seq<char>)
    ensures
        ({
            let before = "Failed to reopen file handle for cloneable reader '"@;
            let between = "': "@;
            let message = reopen_failure(display, error);
            &&& message.len() == before.len() + display.len() + between.len() + error.len()
            &&& message.subrange(0, before.len() as int) == before
            &&& message.subrange(before.len() as int, (before.len() + display.len()) as int)
                == display
            &&& message.subrange(
                (before.len() + display.len()) as int,
                (before.len() + display.len() + between.len()) as int,
            ) == between
            &&& message.skip((before.len() + display.len() + between.len()) as int) == error
        }),
{
}

} // verus!
