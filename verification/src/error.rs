//! Errors: what the transport reported, and what a synchronous call answers
//! when it cannot make progress.

use std::io::Error;
use std::io::ErrorKind;
use vstd::prelude::*;

verus! {

/// `std::io::Error`, carried through untouched: nothing is claimed of what a
/// value of it holds.
#[verifier::external_type_specification]
#[verifier::external_body]
pub struct ExIoError(std::io::Error);

/// `std::io::ErrorKind`, carried through untouched: nothing is claimed of what
/// a value of it holds.
#[verifier::external_type_specification]
#[verifier::external_body]
pub struct ExIoErrorKind(std::io::ErrorKind);

/// A failure reported by the transport.
///
/// `kind` classifies it and is all that the adapters ever copy. `source` is the
/// transport's own error value while this is the first report of the failure,
/// and absent in a report that was duplicated from another.
#[derive(Debug)]
pub struct TransportError {
    pub kind: ErrorKind,
    pub source: Option<Error>,
}

impl TransportError {
    /// This report without its source.
    pub open spec fn spec_kind_only(&self) -> TransportError {
        TransportError { kind: self.kind, source: None }
    }

    /// A second report of the same failure: same kind, no source. Used to tell
    /// the awaiting caller while the first report waits in a status cell.
    #[verifier::when_used_as_spec(spec_kind_only)]
    pub fn kind_only(&self) -> (report: TransportError)
        ensures
            report == self.spec_kind_only(),
    {
        TransportError { kind: self.kind, source: None }
    }
}

/// Why a synchronous call made no progress.
#[derive(Debug)]
pub enum SyncError {
    /// Nothing can be done right now; retry once the transport has been
    /// awaited. Not a failure.
    WouldBlock,
    /// The transport failed earlier; this is the one delivery of that failure
    /// to the synchronous side.
    Transport(TransportError),
}

} // verus!
