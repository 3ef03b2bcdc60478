//! I/O errors, seek targets and offset arithmetic.

use vstd::prelude::*;

use crate::text::join;

verus! {

/// The kinds of I/O error that the reader reports.
#[derive(Debug, Copy, Clone, PartialEq, Eq, Structural)]
pub enum ErrorKind {
    InvalidInput,
    Unsupported,
    Other,
}

/// An I/O error: a kind and a message.
#[derive(Debug)]
pub struct IoError {
    pub kind: ErrorKind,
    pub message: String,
}

/// What an [`IoError`] says.
pub struct IoErrorView {
    pub kind: ErrorKind,
    pub message: Seq<char>,
}

impl View for IoError {
    type V = IoErrorView;

    open spec fn view(&self) -> IoErrorView {
        IoErrorView { kind: self.kind, message: self.message@ }
    }
}

impl IoError {
    /// Builds an error of kind `Other`.
    pub fn other(message: String) -> (error: IoError)
        ensures
            error@ == (IoErrorView { kind: ErrorKind::Other, message: message@ }),
    {
        IoError { kind: ErrorKind::Other, message }
    }

    /// Returns the kind of the error.
    pub fn kind(&self) -> (kind: ErrorKind)
        ensures
            kind == self@.kind,
    {
        self.kind
    }

    /// Returns the text that the error is printed as.
    pub fn to_string(&self) -> (text: String)
        ensures
            text@ == self@.message,
    {
        self.message.clone()
    }
}

/// A position to seek to.
#[derive(Debug, Copy, Clone, PartialEq, Eq, Structural)]
pub enum SeekFrom {
    Start(u64),
    End(i64),
    Current(i64),
}

/// Where a move by `offset` from `base` ends: at the sum of the two, which has
/// to be an offset that fits.
pub open spec fn relative_seek(base: u64, offset: i64, label: Seq<char>) -> Result<
    u64,
    IoErrorView,
> {
    let target = base as int + offset as int;
    if target > u64::MAX {
        Err(
            IoErrorView { kind: ErrorKind::InvalidInput, message: "Seek overflow for "@ + label },
        )
    } else if target < 0 {
        Err(
            IoErrorView {
                kind: ErrorKind::InvalidInput,
                message: "Seek before start of "@ + label,
            },
        )
    } else {
        Ok(target as u64)
    }
}

/// The view of a result whose error is an [`IoError`].
pub open spec fn io_result<T>(result: Result<T, IoError>) -> Result<T, IoErrorView> {
    match result {
        Ok(value) => Ok(value),
        Err(error) => Err(error@),
    }
}

/// Adds a signed offset to a position, or reports that the sum is no position.
pub fn checked_relative_seek(base: u64, offset: i64, label: &str) -> (result: Result<u64, IoError>)
    ensures
        io_result(result) == relative_seek(base, offset, label@),
{
    if offset >= 0 {
        match base.checked_add(offset as u64) {
            Some(target) => Ok(target),
            None => Err(
                IoError { kind: ErrorKind::InvalidInput, message: join("Seek overflow for ", label) },
            ),
        }
    } else {
        let magnitude: u64 = (-(offset + 1)) as u64 + 1;
        match base.checked_sub(magnitude) {
            Some(target) => Ok(target),
            None => Err(
                IoError {
                    kind: ErrorKind::InvalidInput,
                    message: join("Seek before start of ", label),
                },
            ),
        }
    }
}

/// Law: a move by zero stays in place.
pub proof fn law_zero_move_stays(base: u64, label: Seq<char>)
    ensures
        relative_seek(base, 0, label) == Ok::<u64, IoErrorView>(base),
{
}

/// Law: a move that succeeds is undone by the opposite move.
pub proof fn law_opposite_move_undoes(base: u64, offset: i64, label: Seq<char>)
    requires
        offset != i64::MIN,
        relative_seek(base, offset, label) is Ok,
    ensures
        relative_seek(relative_seek(base, offset, label)->Ok_0, (-offset) as i64, label) == Ok::<
            u64,
            IoErrorView,
        >(base),
{
}

/// Law: a move succeeds exactly when its end is a valid offset.
pub proof fn law_move_succeeds_within_range(base: u64, offset: i64, label: Seq<char>)
    ensures
        relative_seek(base, offset, label) is Ok <==> 0 <= base + offset <= u64::MAX,
{
}

/// Law: a move ends at the sum of base and offset. One that would end beyond the
/// largest offset is an overflow, one that would end below zero is before the start,
/// and both say of what.
pub proof fn law_move_ends_at_the_sum(base: u64, offset: i64, label: Seq<char>)
    ensures
        match relative_seek(base, offset, label) {
            Ok(target) => target == base + offset,
            Err(error) => {
                &&& error.kind == ErrorKind::InvalidInput
                &&& base + offset > u64::MAX ==> error.message == "Seek overflow for "@ + label
                &&& base + offset < 0 ==> error.message == "Seek before start of "@ + label
                &&& !(0 <= base + offset <= u64::MAX)
            },
        },
{
}

/// Law: two moves that succeed one after the other end where one move by the sum of
/// their offsets ends.
pub proof fn law_moves_add_up(base: u64, first: i64, second: i64, label: Seq<char>)
    requires
        relative_seek(base, first, label) is Ok,
        i64::MIN <= first + second <= i64::MAX,
    ensures
        relative_seek(relative_seek(base, first, label)->Ok_0, second, label) == relative_seek(
            base,
            (first + second) as i64,
            label,
        ),
{
}

/// Law: what is proved of an I/O error is proved of the very error that the caller
/// gets, and a result is shown with its value as it is.
pub proof fn law_io_errors_are_shown_as_they_are<T>(error: IoError, value: T)
    ensures
        error@.kind == error.kind,
        error@.message == error.message@,
        io_result(Ok::<T, IoError>(value)) == Ok::<T, IoErrorView>(value),
        io_result(Err::<T, IoError>(error)) == Err::<T, IoErrorView>(error@),
{
}

} // verus!
