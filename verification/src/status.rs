//! The tri-state status of a shared cell, and its integer encoding.

use vstd::prelude::*;

verus! {

/// Status of one I/O cycle held in a shared cell.
///
/// Per cycle the status moves `Idle -> Pending -> Ready -> Idle`: a poll on an
/// idle cell starts the background operation, the finished operation publishes
/// `Ready`, and the poll that consumes the result returns the cell to `Idle`.
#[derive(Clone, Copy, Debug, PartialEq, Eq, Structural)]
pub enum Status {
    /// No operation has been started, or the previous result was consumed.
    Idle,
    /// A background operation is in flight; its result is not yet published.
    Pending,
    /// The background operation finished; the cell's result field is valid.
    Ready,
}

/// The integer code under which a status is stored in an atomic cell.
pub fn status_code(s: Status) -> (c: i32)
    ensures
        s == Status::Idle ==> c == 0,
        s == Status::Pending ==> c == 1,
        s == Status::Ready ==> c == 2,
{
    match s {
        Status::Idle => 0,
        Status::Pending => 1,
        Status::Ready => 2,
    }
}

/// Decodes a stored status code; any code outside the three valid ones is refused.
pub fn status_from_code(c: i32) -> (s: Option<Status>)
    ensures
        c == 0 ==> s == Some(Status::Idle),
        c == 1 ==> s == Some(Status::Pending),
        c == 2 ==> s == Some(Status::Ready),
        (c < 0 || c > 2) ==> s is None,
{
    if c == 0 {
        Some(Status::Idle)
    } else if c == 1 {
        Some(Status::Pending)
    } else if c == 2 {
        Some(Status::Ready)
    } else {
        None
    }
}

} // verus!
