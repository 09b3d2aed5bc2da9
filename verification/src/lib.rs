//! Staging buffers that let a synchronous, non-blocking byte-stream consumer be
//! fed by a completion-based transport which takes ownership of its buffers.
//!
//! [`read::SafeRead`] stages bytes that arrive from the transport until the
//! consumer reads them; [`write::SafeWrite`] stages bytes that the consumer
//! writes until the transport has sent them. Neither ever suspends: where no
//! progress is possible a call answers [`error::SyncError::WouldBlock`], and
//! the driver awaits the transport between the `begin_*` and `finish_*` halves
//! of a fill or a drain.

pub mod buffer;
pub mod error;
pub mod status;
pub mod read;
pub mod write;
