//! Per-iteration decisions of the two background tasks.
//!
//! Both tasks loop over bounded-wait reads from the open device. The reader
//! feeds every byte to the frame decoder and emits completed frames; the
//! recorder persists the raw bytes and rotates its file on a fixed interval.
//! A timeout just repeats the loop; any other read error is fatal to the
//! session. The loops themselves, the reads and the file writes live in the
//! surrounding program; it hands each read's outcome to these step functions
//! and performs what they direct.

use vstd::prelude::*;
use crate::frame::{Frame, FrameDecoder, frames_of, stream_leftover};
use crate::session::SessionError;

verus! {

/// Seconds after which the active recording file is closed and a new one
/// opened.
pub const ROTATION_INTERVAL_SECS: u64 = 600;

/// The outcome of one bounded-wait read from the device.
#[derive(Clone, Debug)]
pub enum ReadEvent {
    /// The bytes one read delivered.
    Data(Vec<u8>),
    /// The bounded wait elapsed with nothing to read; not an error.
    TimedOut,
    /// A non-timeout read error, with the transport's own message.
    Failed(String),
}

/// What the reader task does after one read.
#[derive(Clone, Debug)]
pub enum ReaderStep {
    /// Push these decoded frames to the event sink and keep reading.
    Frames(Vec<Frame>),
    /// Nothing arrived; keep reading.
    Idle,
    /// Fatal: close the session, notify the sink of link loss, terminate.
    LinkLost(SessionError),
}

/// One iteration of the reader task: frames out of the bytes in, a fatal
/// verdict out of a read error, and nothing out of a timeout.
pub fn reader_step(decoder: &mut FrameDecoder, event: ReadEvent) -> (r: ReaderStep)
    requires
        old(decoder).wf(),
    ensures
        final(decoder).wf(),
        event matches ReadEvent::Data(bytes) ==> (r matches ReaderStep::Frames(frames)
            && frames@ == frames_of(old(decoder)@ + bytes@) && final(decoder)@ == stream_leftover(
            old(decoder)@ + bytes@,
        )),
        event is TimedOut ==> r is Idle && *final(decoder) == *old(decoder),
        event matches ReadEvent::Failed(e) ==> r == ReaderStep::LinkLost(
            SessionError::ReadFailure(e),
        ) && *final(decoder) == *old(decoder),
{
    match event {
        ReadEvent::Data(bytes) => ReaderStep::Frames(decoder.feed(&bytes)),
        ReadEvent::TimedOut => ReaderStep::Idle,
        ReadEvent::Failed(e) => ReaderStep::LinkLost(SessionError::ReadFailure(e)),
    }
}

/// The active recording destination: the configured folder, the name of the
/// file currently written, and the second at which that file was opened.
/// The open file handle itself lives with the surrounding program.
pub struct RecordingTarget {
    pub folder: String,
    pub file_name: String,
    pub opened_at: u64,
}

/// What the recorder task does after one read.
#[derive(Clone, Debug)]
pub enum RecorderStep {
    /// Append these raw bytes verbatim to the active file, then check
    /// rotation; keep reading.
    Persist(Vec<u8>),
    /// Nothing arrived; check rotation and keep reading.
    Idle,
    /// Fatal: close the session, notify the sink, terminate.
    LinkLost(SessionError),
}

impl RecordingTarget {
    /// A target whose active file was just opened.
    pub fn new(folder: String, file_name: String, opened_at: u64) -> (t: RecordingTarget)
        ensures
            t.folder == folder,
            t.file_name == file_name,
            t.opened_at == opened_at,
    {
        RecordingTarget { folder, file_name, opened_at }
    }

    /// Whether the fixed rotation interval has elapsed since the active file
    /// was opened. `now` comes from a monotonic clock, so it never lies
    /// before the moment the file was opened.
    pub fn rotation_due(&self, now: u64) -> (due: bool)
        requires
            self.opened_at <= now,
        ensures
            due == (now - self.opened_at >= ROTATION_INTERVAL_SECS),
    {
        now - self.opened_at >= ROTATION_INTERVAL_SECS
    }

    /// Commits a rotation: the freshly created file becomes the active one
    /// and its interval starts now. The folder never changes over a
    /// recording session.
    pub fn rotate(&mut self, file_name: String, now: u64)
        ensures
            *final(self) == (RecordingTarget { file_name, opened_at: now, ..*old(self) }),
    {
        self.file_name = file_name;
        self.opened_at = now;
    }
}

/// One iteration of the recorder task before its rotation check: raw bytes
/// go to the active file, a timeout does nothing, a read error is fatal.
pub fn recorder_step(event: ReadEvent) -> (r: RecorderStep)
    ensures
        event matches ReadEvent::Data(bytes) ==> r == RecorderStep::Persist(bytes),
        event is TimedOut ==> r is Idle,
        event matches ReadEvent::Failed(e) ==> r == RecorderStep::LinkLost(
            SessionError::ReadFailure(e),
        ),
{
    match event {
        ReadEvent::Data(bytes) => RecorderStep::Persist(bytes),
        ReadEvent::TimedOut => RecorderStep::Idle,
        ReadEvent::Failed(e) => RecorderStep::LinkLost(SessionError::ReadFailure(e)),
    }
}

} // verus!
