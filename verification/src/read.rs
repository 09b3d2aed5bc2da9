//! The read adapter: bytes arrive through asynchronous fills and leave through
//! synchronous reads that never wait.

use crate::buffer::contents;
use crate::buffer::BUFFER_SIZE;
use crate::error::SyncError;
use crate::error::TransportError;
use crate::status::ReadStatus;
use bytes::Buf;
use bytes::BytesMut;
use vstd::prelude::*;

verus! {

/// What a read adapter is, as far as its callers can tell.
pub struct ReadState {
    /// The staging buffer is with the transport and must not be touched.
    pub on_loan: bool,
    /// The bytes filled and not yet read, oldest first. Empty while on loan.
    pub buffered: Seq<u8>,
    /// The outcome of the last fill that no read has reported yet.
    pub pending: ReadStatus,
}

impl ReadState {
    /// A new adapter: nothing buffered, nothing pending, buffer at home.
    pub open spec fn fresh() -> ReadState {
        ReadState { on_loan: false, buffered: Seq::empty(), pending: ReadStatus::Clear }
    }

    /// Nothing buffered and nothing pending: a read can only be told to retry.
    pub open spec fn idle(self) -> bool {
        !self.on_loan && self.buffered.len() == 0 && self.pending is Clear
    }

    /// How many bytes a read into a destination of `room` bytes copies.
    pub open spec fn copied(self, room: nat) -> nat {
        if self.buffered.len() <= room {
            self.buffered.len()
        } else {
            room
        }
    }

    /// The bytes that a read into a destination of `room` bytes copies.
    pub open spec fn delivered(self, room: nat) -> Seq<u8> {
        self.buffered.take(self.copied(room) as int)
    }

    /// What a read into a destination of `room` bytes answers. Buffered bytes
    /// come first; the pending outcome is consulted only once none are left.
    pub open spec fn read_result(self, room: nat) -> Result<usize, SyncError> {
        if self.buffered.len() > 0 {
            Ok(self.copied(room) as usize)
        } else {
            match self.pending {
                ReadStatus::Eof => Ok(0),
                ReadStatus::Failed(e) => Err(SyncError::Transport(e)),
                ReadStatus::Clear => Err(SyncError::WouldBlock),
            }
        }
    }

    /// The adapter after a read into a destination of `room` bytes: the copied
    /// bytes are gone, or, where none were buffered, the pending outcome is.
    pub open spec fn after_read(self, room: nat) -> ReadState {
        if self.buffered.len() > 0 {
            ReadState { buffered: self.buffered.skip(self.copied(room) as int), ..self }
        } else {
            ReadState { pending: ReadStatus::Clear, ..self }
        }
    }

    /// The adapter after the first half of a fill: the buffer leaves only if
    /// nothing is buffered.
    pub open spec fn after_begin_fill(self) -> ReadState {
        if self.buffered.len() > 0 {
            self
        } else {
            ReadState { on_loan: true, ..self }
        }
    }

    /// The adapter after the transport has handed the buffer back holding
    /// `bytes`, with `outcome`. The outcome replaces whatever was pending.
    pub open spec fn after_fill(
        self,
        bytes: Seq<u8>,
        outcome: Result<usize, TransportError>,
    ) -> ReadState {
        ReadState {
            on_loan: false,
            buffered: bytes,
            pending: match outcome {
                Ok(n) => if n == 0 {
                    ReadStatus::Eof
                } else {
                    ReadStatus::Clear
                },
                Err(e) => ReadStatus::Failed(e),
            },
        }
    }

    /// What a fill answers to its awaiting caller: the count as it came, or a
    /// second report of the failure whose first report is now pending.
    pub open spec fn fill_result(outcome: Result<usize, TransportError>) -> Result<
        usize,
        TransportError,
    > {
        match outcome {
            Ok(n) => Ok(n),
            Err(e) => Err(e.kind_only()),
        }
    }

    /// The adapter after one read for each entry of `rooms`, in order.
    pub open spec fn after_reads(self, rooms: Seq<nat>) -> ReadState
        decreases rooms.len(),
    {
        if rooms.len() == 0 {
            self
        } else {
            self.after_read(rooms[0]).after_reads(rooms.skip(1))
        }
    }

    /// All bytes copied out by one read for each entry of `rooms`, in the
    /// order in which the reads copied them.
    pub open spec fn delivered_by(self, rooms: Seq<nat>) -> Seq<u8>
        decreases rooms.len(),
    {
        if rooms.len() == 0 {
            Seq::empty()
        } else {
            self.delivered(rooms[0]) + self.after_read(rooms[0]).delivered_by(rooms.skip(1))
        }
    }
}

/// The sum of the entries of `rooms`.
pub open spec fn total_room(rooms: Seq<nat>) -> nat
    decreases rooms.len(),
{
    if rooms.len() == 0 {
        0
    } else {
        rooms[0] + total_room(rooms.skip(1))
    }
}

/// First half of a fill: what the driver has to do next.
#[derive(Debug)]
pub enum FillStep {
    /// Unread bytes are still buffered, this many. No transport read is due:
    /// new bytes are never requested while old ones remain.
    Buffered(usize),
    /// The buffer is empty and has been taken out of the adapter. Hand it to
    /// the transport's read, await it, and bring buffer and outcome back with
    /// [`SafeRead::finish_fill`].
    Issue(BytesMut),
}

/// Read side of the bridge.
pub struct SafeRead {
    // `None` only between the two halves of a fill.
    buffer: Option<BytesMut>,
    status: ReadStatus,
}

impl View for SafeRead {
    type V = ReadState;

    closed spec fn view(&self) -> ReadState {
        ReadState {
            on_loan: self.buffer is None,
            buffered: match self.buffer {
                Some(b) => contents(b),
                None => Seq::empty(),
            },
            pending: self.status,
        }
    }
}

impl Default for SafeRead {
    fn default() -> (adapter: SafeRead)
        ensures
            adapter@ == ReadState::fresh(),
    {
        SafeRead { buffer: Some(BytesMut::new()), status: ReadStatus::Clear }
    }
}

impl SafeRead {
    /// Whether the staging buffer is currently with the transport.
    pub fn is_on_loan(&self) -> (on_loan: bool)
        ensures
            on_loan == self@.on_loan,
    {
        self.buffer.is_none()
    }

    /// Number of bytes filled and not yet read.
    pub fn buffered_len(&self) -> (len: usize)
        ensures
            len == self@.buffered.len(),
    {
        match &self.buffer {
            Some(b) => b.len(),
            None => 0,
        }
    }

    /// First half of a fill. With unread bytes buffered it changes nothing and
    /// reports their number. Otherwise it makes room for `BUFFER_SIZE` bytes
    /// and moves the empty buffer out, to be lent to the transport.
    pub fn begin_fill(&mut self) -> (step: FillStep)
        requires
            !old(self)@.on_loan,
        ensures
            final(self)@ == old(self)@.after_begin_fill(),
            (match step {
                FillStep::Buffered(n) => n > 0 && n == old(self)@.buffered.len(),
                FillStep::Issue(buffer) => old(self)@.buffered.len() == 0 && contents(buffer).len()
                    == 0,
            }),
    {
        let available = self.buffer.as_ref().unwrap().len();
        if available > 0 {
            return FillStep::Buffered(available);
        }
        let mut buffer = self.buffer.take().unwrap();
        buffer.reserve(BUFFER_SIZE);
        assert(old(self)@.buffered =~= Seq::empty());
        FillStep::Issue(buffer)
    }

    /// Second half of a fill: takes the buffer back from the transport, with
    /// the outcome of its read, and records the outcome for the synchronous
    /// side. Zero bytes read means end of stream. A failure is reported twice:
    /// here, as a report of the same kind, and once by a later `read`.
    pub fn finish_fill(&mut self, buffer: BytesMut, outcome: Result<usize, TransportError>) -> (r:
        Result<usize, TransportError>)
        requires
            old(self)@.on_loan,
        ensures
            final(self)@ == old(self)@.after_fill(contents(buffer), outcome),
            r == ReadState::fill_result(outcome),
    {
        self.buffer = Some(buffer);
        match outcome {
            Ok(n) => {
                if n == 0 {
                    self.status = ReadStatus::Eof;
                } else {
                    self.status = ReadStatus::Clear;
                }
                Ok(n)
            },
            Err(e) => {
                let report = e.kind_only();
                self.status = ReadStatus::Failed(e);
                Err(report)
            },
        }
    }

    /// Copies buffered bytes into the front of `dest`, as many as fit, and
    /// drops them from the buffer; the rest of `dest` is left alone. With
    /// nothing buffered it delivers the pending outcome, once: end of stream
    /// as `Ok(0)`, a failure as itself. With nothing pending either it answers
    /// `WouldBlock`. It never waits.
    pub fn read(&mut self, dest: &mut [u8]) -> (r: Result<usize, SyncError>)
        requires
            !old(self)@.on_loan,
        ensures
            r == old(self)@.read_result(old(dest)@.len()),
            final(self)@ == old(self)@.after_read(old(dest)@.len()),
            final(dest)@ == old(self)@.delivered(old(dest)@.len()) + old(dest)@.skip(
                old(self)@.copied(old(dest)@.len()) as int,
            ),
            old(self)@.idle() ==> r == Err::<usize, SyncError>(SyncError::WouldBlock)
                && final(self)@ == old(self)@,
    {
        let buffer = self.buffer.as_mut().unwrap();
        if buffer.is_empty() {
            return match self.status.take() {
                ReadStatus::Eof => Ok(0),
                ReadStatus::Failed(e) => Err(SyncError::Transport(e)),
                ReadStatus::Clear => Err(SyncError::WouldBlock),
            };
        }
        let to_copy = if buffer.len() <= dest.len() {
            buffer.len()
        } else {
            dest.len()
        };
        let stored: &[u8] = (*buffer).as_ref();
        let (front, _) = stored.split_at(to_copy);
        let (head, _) = dest.split_at_mut(to_copy);
        head.copy_from_slice(front);
        buffer.advance(to_copy);
        Ok(to_copy)
    }
}

/// Reads lose, repeat and reorder nothing: whatever the sizes of the
/// destinations, the bytes copied out by a run of reads, put end to end, are
/// the front of what was buffered, and all of it once the destinations
/// together have room for it.
pub proof fn lemma_reads_deliver_in_order(s: ReadState, rooms: Seq<nat>)
    ensures
        s.delivered_by(rooms) == s.buffered.take(
            if total_room(rooms) <= s.buffered.len() {
                total_room(rooms) as int
            } else {
                s.buffered.len() as int
            },
        ),
    decreases rooms.len(),
{
    if rooms.len() > 0 {
        lemma_reads_deliver_in_order(s.after_read(rooms[0]), rooms.skip(1));
    }
}

/// An idle adapter stays idle however many reads are made on it.
pub proof fn lemma_idle_reads_change_nothing(s: ReadState, rooms: Seq<nat>)
    requires
        s.idle(),
    ensures
        s.after_reads(rooms) == s,
    decreases rooms.len(),
{
    if rooms.len() > 0 {
        lemma_idle_reads_change_nothing(s.after_read(rooms[0]), rooms.skip(1));
    }
}

/// End of stream is not sticky. After a fill in which the transport read zero
/// bytes, the first read answers `Ok(0)`; any read after it, however many come
/// between, answers `WouldBlock`.
pub proof fn lemma_eof_delivered_once(s: ReadState, first: nat, between: Seq<nat>, later: nat)
    ensures
        ({
            let filled = s.after_fill(Seq::empty(), Ok(0));
            &&& filled.read_result(first) == Ok::<usize, SyncError>(0)
            &&& filled.after_read(first).after_reads(between).read_result(later) == Err::<
                usize,
                SyncError,
            >(SyncError::WouldBlock)
        }),
{
    let filled = s.after_fill(Seq::empty(), Ok(0));
    lemma_idle_reads_change_nothing(filled.after_read(first), between);
}

/// A failed fill is told to the synchronous side exactly once. After a fill in
/// which the transport failed with `e`, the first read answers `e` itself; any
/// read after it, however many come between, answers `WouldBlock`.
pub proof fn lemma_fill_failure_delivered_once(
    s: ReadState,
    e: TransportError,
    first: nat,
    between: Seq<nat>,
    later: nat,
)
    ensures
        ({
            let filled = s.after_fill(Seq::empty(), Err(e));
            &&& ReadState::fill_result(Err(e)) == Err::<usize, TransportError>(e.kind_only())
            &&& filled.read_result(first) == Err::<usize, SyncError>(SyncError::Transport(e))
            &&& filled.after_read(first).after_reads(between).read_result(later) == Err::<
                usize,
                SyncError,
            >(SyncError::WouldBlock)
        }),
{
    let filled = s.after_fill(Seq::empty(), Err(e));
    lemma_idle_reads_change_nothing(filled.after_read(first), between);
}

} // verus!
