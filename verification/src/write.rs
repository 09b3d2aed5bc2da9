//! The write adapter: bytes enter through synchronous writes that never wait
//! and leave through asynchronous drains.

use crate::buffer::contents;
use crate::buffer::BUFFER_SIZE;
use crate::error::SyncError;
use crate::error::TransportError;
use crate::status::WriteStatus;
use bytes::Buf;
use bytes::BytesMut;
use vstd::prelude::*;

verus! {

/// What a write adapter is, as far as its callers can tell.
pub struct WriteState {
    /// The staging buffer is with the transport and must not be touched.
    pub on_loan: bool,
    /// The bytes written and not yet sent, oldest first. Empty while on loan.
    pub buffered: Seq<u8>,
    /// The failure of the last drain that no synchronous call has reported yet.
    pub pending: WriteStatus,
}

/// A synchronous call on a write adapter.
pub enum SyncCall {
    /// `write` with these bytes as its source.
    Write(Seq<u8>),
    /// `flush`.
    Flush,
}

/// One operation on a write adapter. A drain counts as one, from lending the
/// buffer to taking it back.
pub enum Operation {
    /// A synchronous call.
    Sync(SyncCall),
    /// A drain in which the transport reported this outcome.
    Drain(Result<usize, TransportError>),
}

impl WriteState {
    /// A new adapter: nothing buffered, nothing pending, buffer at home.
    pub open spec fn fresh() -> WriteState {
        WriteState { on_loan: false, buffered: Seq::empty(), pending: WriteStatus::Clear }
    }

    /// The staged bytes fit the capacity bound.
    pub open spec fn within_bound(self) -> bool {
        self.buffered.len() <= BUFFER_SIZE
    }

    /// No more bytes can be staged.
    pub open spec fn full(self) -> bool {
        self.buffered.len() >= BUFFER_SIZE
    }

    /// How many of `offered` bytes a write stages: all of them, or as many as
    /// the bound still leaves room for.
    pub open spec fn accepted(self, offered: nat) -> nat {
        if self.full() {
            0
        } else if offered <= BUFFER_SIZE - self.buffered.len() {
            offered
        } else {
            (BUFFER_SIZE - self.buffered.len()) as nat
        }
    }

    /// What a write of `offered` bytes answers. A pending failure comes before
    /// anything else, so that no byte is staged on top of it.
    pub open spec fn write_result(self, offered: nat) -> Result<usize, SyncError> {
        match self.pending {
            WriteStatus::Failed(e) => Err(SyncError::Transport(e)),
            WriteStatus::Clear => if self.full() {
                Err(SyncError::WouldBlock)
            } else {
                Ok(self.accepted(offered) as usize)
            },
        }
    }

    /// The adapter after a write of `src`: the pending failure is gone, or,
    /// where none was pending, the accepted front of `src` is staged.
    pub open spec fn after_write(self, src: Seq<u8>) -> WriteState {
        match self.pending {
            WriteStatus::Failed(_) => WriteState { pending: WriteStatus::Clear, ..self },
            WriteStatus::Clear => WriteState {
                buffered: self.buffered + src.take(self.accepted(src.len()) as int),
                ..self
            },
        }
    }

    /// What a flush answers: the pending failure, else `WouldBlock` while
    /// bytes are staged, else success.
    pub open spec fn flush_result(self) -> Result<(), SyncError> {
        match self.pending {
            WriteStatus::Failed(e) => Err(SyncError::Transport(e)),
            WriteStatus::Clear => if self.buffered.len() > 0 {
                Err(SyncError::WouldBlock)
            } else {
                Ok(())
            },
        }
    }

    /// The adapter after a flush: only a pending failure is gone.
    pub open spec fn after_flush(self) -> WriteState {
        WriteState { pending: WriteStatus::Clear, ..self }
    }

    /// The adapter after the first half of a drain: the buffer leaves only if
    /// it holds something to send.
    pub open spec fn after_begin_drain(self) -> WriteState {
        if self.buffered.len() == 0 {
            self
        } else {
            WriteState { on_loan: true, buffered: Seq::empty(), ..self }
        }
    }

    /// The adapter after the transport has handed the buffer back holding
    /// `bytes`, with `outcome`: the bytes it reports written are gone, or its
    /// failure is pending and every byte is kept.
    pub open spec fn after_drain(
        self,
        bytes: Seq<u8>,
        outcome: Result<usize, TransportError>,
    ) -> WriteState {
        match outcome {
            Ok(n) => WriteState { on_loan: false, buffered: bytes.skip(n as int), ..self },
            Err(e) => WriteState {
                on_loan: false,
                buffered: bytes,
                pending: WriteStatus::Failed(e),
            },
        }
    }

    /// What a drain answers to its awaiting caller: the count as it came, or a
    /// second report of the failure whose first report is now pending.
    pub open spec fn drain_result(outcome: Result<usize, TransportError>) -> Result<
        usize,
        TransportError,
    > {
        match outcome {
            Ok(n) => Ok(n),
            Err(e) => Err(e.kind_only()),
        }
    }

    /// The adapter after one synchronous call.
    pub open spec fn after_call(self, call: SyncCall) -> WriteState {
        match call {
            SyncCall::Write(src) => self.after_write(src),
            SyncCall::Flush => self.after_flush(),
        }
    }

    /// The adapter after the synchronous calls `calls`, made in order.
    pub open spec fn after_calls(self, calls: Seq<SyncCall>) -> WriteState
        decreases calls.len(),
    {
        if calls.len() == 0 {
            self
        } else {
            self.after_call(calls[0]).after_calls(calls.skip(1))
        }
    }

    /// The adapter after both halves of a drain in which the transport hands
    /// the buffer back as it was lent, with `outcome`.
    pub open spec fn after_whole_drain(self, outcome: Result<usize, TransportError>) -> WriteState {
        if self.buffered.len() == 0 {
            self
        } else {
            self.after_begin_drain().after_drain(self.buffered, outcome)
        }
    }

    /// The adapter after one operation.
    pub open spec fn after_operation(self, op: Operation) -> WriteState {
        match op {
            Operation::Sync(call) => self.after_call(call),
            Operation::Drain(outcome) => self.after_whole_drain(outcome),
        }
    }

    /// The adapter after the operations `ops`, made in order.
    pub open spec fn after_operations(self, ops: Seq<Operation>) -> WriteState
        decreases ops.len(),
    {
        if ops.len() == 0 {
            self
        } else {
            self.after_operation(ops[0]).after_operations(ops.skip(1))
        }
    }

    /// In the run `ops`, no drain reports more bytes written than were staged
    /// when it began.
    pub open spec fn drains_in_range(self, ops: Seq<Operation>) -> bool
        decreases ops.len(),
    {
        if ops.len() == 0 {
            true
        } else {
            &&& ops[0] matches Operation::Drain(Ok(n)) ==> n <= self.buffered.len()
            &&& self.after_operation(ops[0]).drains_in_range(ops.skip(1))
        }
    }

    /// The transport failure that one synchronous call answers with, if it
    /// answers with one.
    pub open spec fn failure_told_by(self, call: SyncCall) -> Option<TransportError> {
        match call {
            SyncCall::Write(src) => match self.write_result(src.len()) {
                Err(SyncError::Transport(e)) => Some(e),
                _ => None,
            },
            SyncCall::Flush => match self.flush_result() {
                Err(SyncError::Transport(e)) => Some(e),
                _ => None,
            },
        }
    }
}

/// First half of a drain: what the driver has to do next.
#[derive(Debug)]
pub enum DrainStep {
    /// Nothing is staged. No transport write is due; the drain is complete
    /// with zero bytes written.
    Idle,
    /// The staged bytes have been taken out of the adapter. Hand the buffer
    /// to the transport's write-all, await it, and bring buffer and outcome
    /// back with [`SafeWrite::finish_drain`].
    Issue(BytesMut),
}

/// Write side of the bridge.
pub struct SafeWrite {
    // `None` only between the two halves of a drain.
    buffer: Option<BytesMut>,
    status: WriteStatus,
}

impl View for SafeWrite {
    type V = WriteState;

    closed spec fn view(&self) -> WriteState {
        WriteState {
            on_loan: self.buffer is None,
            buffered: match self.buffer {
                Some(b) => contents(b),
                None => Seq::empty(),
            },
            pending: self.status,
        }
    }
}

impl Default for SafeWrite {
    fn default() -> (adapter: SafeWrite)
        ensures
            adapter@ == WriteState::fresh(),
    {
        SafeWrite { buffer: Some(BytesMut::new()), status: WriteStatus::Clear }
    }
}

impl SafeWrite {
    /// Whether the staging buffer is currently with the transport.
    pub fn is_on_loan(&self) -> (on_loan: bool)
        ensures
            on_loan == self@.on_loan,
    {
        self.buffer.is_none()
    }

    /// Number of bytes written and not yet sent.
    pub fn buffered_len(&self) -> (len: usize)
        ensures
            len == self@.buffered.len(),
    {
        match &self.buffer {
            Some(b) => b.len(),
            None => 0,
        }
    }

    /// Stages the front of `src`, as much of it as the bound leaves room for,
    /// and reports how many bytes that was. A pending failure is delivered
    /// instead, once, and nothing is staged. A full buffer answers
    /// `WouldBlock` and stages nothing. It never waits.
    pub fn write(&mut self, src: &[u8]) -> (r: Result<usize, SyncError>)
        requires
            !old(self)@.on_loan,
        ensures
            r == old(self)@.write_result(src@.len()),
            final(self)@ == old(self)@.after_write(src@),
            old(self)@.within_bound() ==> final(self)@.within_bound(),
            old(self)@.pending is Clear && old(self)@.full() ==> r == Err::<usize, SyncError>(
                SyncError::WouldBlock,
            ) && final(self)@ == old(self)@,
    {
        match self.status.take() {
            WriteStatus::Failed(e) => {
                return Err(SyncError::Transport(e));
            },
            WriteStatus::Clear => {},
        }
        let buffer = self.buffer.as_mut().unwrap();
        if buffer.len() >= BUFFER_SIZE {
            return Err(SyncError::WouldBlock);
        }
        let space_left = BUFFER_SIZE - buffer.len();
        buffer.reserve(space_left);
        let to_copy = if src.len() <= space_left {
            src.len()
        } else {
            space_left
        };
        let (front, _) = src.split_at(to_copy);
        buffer.extend_from_slice(front);
        Ok(to_copy)
    }

    /// Succeeds exactly when nothing is staged and nothing is pending. A
    /// pending failure is delivered instead, once; staged bytes that the
    /// transport has not sent yet answer `WouldBlock`. It never waits and
    /// sends nothing itself.
    pub fn flush(&mut self) -> (r: Result<(), SyncError>)
        requires
            !old(self)@.on_loan,
        ensures
            r == old(self)@.flush_result(),
            final(self)@ == old(self)@.after_flush(),
            old(self)@.within_bound() ==> final(self)@.within_bound(),
            r is Ok <==> old(self)@.buffered.len() == 0 && old(self)@.pending is Clear,
    {
        match self.status.take() {
            WriteStatus::Failed(e) => {
                return Err(SyncError::Transport(e));
            },
            WriteStatus::Clear => {},
        }
        if !self.buffer.as_ref().unwrap().is_empty() {
            return Err(SyncError::WouldBlock);
        }
        Ok(())
    }

    /// First half of a drain. With nothing staged it changes nothing.
    /// Otherwise it moves the buffer with the staged bytes out, to be lent to
    /// the transport.
    pub fn begin_drain(&mut self) -> (step: DrainStep)
        requires
            !old(self)@.on_loan,
        ensures
            final(self)@ == old(self)@.after_begin_drain(),
            final(self)@.within_bound(),
            (match step {
                DrainStep::Idle => old(self)@.buffered.len() == 0,
                DrainStep::Issue(buffer) => contents(buffer).len() > 0 && contents(buffer)
                    == old(self)@.buffered,
            }),
    {
        if self.buffer.as_ref().unwrap().is_empty() {
            return DrainStep::Idle;
        }
        let buffer = self.buffer.take().unwrap();
        DrainStep::Issue(buffer)
    }

    /// Second half of a drain: takes the buffer back from the transport, with
    /// the outcome of its write. On success the bytes written are dropped. A
    /// failure keeps every byte and is reported twice: here, as a report of
    /// the same kind, and once by a later `write` or `flush`.
    ///
    /// The transport cannot have written more bytes than the buffer holds.
    pub fn finish_drain(&mut self, buffer: BytesMut, outcome: Result<usize, TransportError>) -> (r:
        Result<usize, TransportError>)
        requires
            old(self)@.on_loan,
            outcome matches Ok(n) ==> n <= contents(buffer).len(),
        ensures
            final(self)@ == old(self)@.after_drain(contents(buffer), outcome),
            contents(buffer).len() <= BUFFER_SIZE ==> final(self)@.within_bound(),
            r == WriteState::drain_result(outcome),
    {
        let mut buffer = buffer;
        match outcome {
            Ok(written) => {
                buffer.advance(written);
                self.buffer = Some(buffer);
                Ok(written)
            },
            Err(e) => {
                let report = e.kind_only();
                self.buffer = Some(buffer);
                self.status = WriteStatus::Failed(e);
                Err(report)
            },
        }
    }
}

/// Synchronous calls raise no failure of their own: with nothing pending
/// before them, nothing is pending after them.
pub proof fn lemma_sync_calls_keep_clear(s: WriteState, calls: Seq<SyncCall>)
    requires
        s.pending is Clear,
    ensures
        s.after_calls(calls).pending is Clear,
    decreases calls.len(),
{
    if calls.len() > 0 {
        lemma_sync_calls_keep_clear(s.after_call(calls[0]), calls.skip(1));
    }
}

/// From a new adapter on, the staged bytes never exceed `BUFFER_SIZE`: not
/// after any run of writes, flushes and drains in which the transport hands
/// the buffer back as it was lent and reports no more bytes written than it
/// was given.
pub proof fn lemma_bound_holds_forever(ops: Seq<Operation>)
    requires
        WriteState::fresh().drains_in_range(ops),
    ensures
        WriteState::fresh().after_operations(ops).within_bound(),
{
    lemma_operations_keep_bound(WriteState::fresh(), ops);
}

/// Writes, flushes and whole drains keep the staged bytes within the bound.
pub proof fn lemma_operations_keep_bound(s: WriteState, ops: Seq<Operation>)
    requires
        s.within_bound(),
        s.drains_in_range(ops),
    ensures
        s.after_operations(ops).within_bound(),
    decreases ops.len(),
{
    if ops.len() > 0 {
        lemma_operations_keep_bound(s.after_operation(ops[0]), ops.skip(1));
    }
}

/// A failed drain is told to the synchronous side exactly once. After a drain
/// in which the transport failed with `e`, the first synchronous call, `write`
/// or `flush`, answers `e` itself; no call after it, however many come
/// between, answers with a transport failure.
pub proof fn lemma_drain_failure_delivered_once(
    s: WriteState,
    bytes: Seq<u8>,
    e: TransportError,
    first: SyncCall,
    between: Seq<SyncCall>,
    later: SyncCall,
)
    ensures
        ({
            let failed = s.after_drain(bytes, Err(e));
            &&& WriteState::drain_result(Err(e)) == Err::<usize, TransportError>(e.kind_only())
            &&& failed.failure_told_by(first) == Some(e)
            &&& failed.after_call(first).after_calls(between).failure_told_by(later) is None
        }),
{
    let failed = s.after_drain(bytes, Err(e));
    lemma_sync_calls_keep_clear(failed.after_call(first), between);
}

} // verus!
