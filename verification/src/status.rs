//! Status cells: single slots that hold the outcome of the last completed
//! transport operation until the synchronous side has been told of it.

use crate::error::TransportError;
use vstd::prelude::*;

verus! {

/// Outcome of the last fill that the synchronous reader has not seen yet.
#[derive(Debug)]
pub enum ReadStatus {
    /// The transport reported end of stream.
    Eof,
    /// The transport failed.
    Failed(TransportError),
    /// Nothing is pending.
    Clear,
}

impl ReadStatus {
    /// Empties the cell and hands out what it held, in one step, so that a
    /// pending outcome is delivered at most once.
    pub fn take(&mut self) -> (taken: ReadStatus)
        ensures
            taken == *old(self),
            *final(self) == ReadStatus::Clear,
    {
        let mut taken = ReadStatus::Clear;
        std::mem::swap(self, &mut taken);
        taken
    }
}

/// Outcome of the last drain that the synchronous writer has not seen yet.
#[derive(Debug)]
pub enum WriteStatus {
    /// The transport failed.
    Failed(TransportError),
    /// Nothing is pending.
    Clear,
}

impl WriteStatus {
    /// Empties the cell and hands out what it held, in one step, so that a
    /// pending failure is delivered at most once.
    pub fn take(&mut self) -> (taken: WriteStatus)
        ensures
            taken == *old(self),
            *final(self) == WriteStatus::Clear,
    {
        let mut taken = WriteStatus::Clear;
        std::mem::swap(self, &mut taken);
        taken
    }
}

} // verus!
