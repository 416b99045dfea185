//! The shared state cell that bridges a background operation and a polling task.

use vstd::prelude::*;
use crate::status::Status;

verus! {

/// A status/result pair shared between one suspendable computation and the
/// background operation it starts.
///
/// Only one party ever writes between two reads of the same field, so the pair
/// is modelled as a plain record: the background worker publishes `result`
/// first and `status == Ready` second, and a reader trusts `result` only after
/// it has observed `Ready`, which is exactly the discipline the field-by-field
/// contracts below describe. The executable twin of this record stores each
/// field in an atomic integer.
pub struct SharedData {
    /// Where the cell stands in the `Idle -> Pending -> Ready -> Idle` cycle.
    pub status: Status,
    /// The operation's numeric result; meaningful only while `status == Ready`.
    pub result: u32,
}

impl SharedData {
    /// A fresh cell: no operation started, result cleared.
    pub fn new() -> (d: SharedData)
        ensures
            d.status == Status::Idle,
            d.result == 0,
    {
        SharedData { status: Status::Idle, result: 0 }
    }

    /// Reads the status field.
    pub fn load_status(&self) -> (s: Status)
        ensures
            s == self.status,
    {
        self.status
    }

    /// Writes the status field; the result field is untouched.
    pub fn store_status(&mut self, s: Status)
        ensures
            final(self).status == s,
            final(self).result == old(self).result,
    {
        self.status = s;
    }

    /// Reads the result field.
    pub fn load_result(&self) -> (r: u32)
        ensures
            r == self.result,
    {
        self.result
    }

    /// Writes the result field; the status field is untouched.
    pub fn store_result(&mut self, r: u32)
        ensures
            final(self).result == r,
            final(self).status == old(self).status,
    {
        self.result = r;
    }
}

} // verus!
