//! The connect/disconnect/record state machine of the single serial session.
//!
//! `SessionManager` holds the session state as plain values: the configured
//! port, an opaque identifier for the open device, which background task is
//! bound to it, and the recording state. The surrounding program owns the
//! actual device and the task threads; it asks a *plan* method what to do,
//! performs the device work, and commits the outcome with an *apply* method.

use vstd::prelude::*;

verus! {

/// Serial device configuration: port path and baud rate. Replaced wholesale
/// by `configure` while disconnected, immutable while a connection is open.
#[derive(Clone, Debug)]
pub struct PortItems {
    pub port_path: String,
    pub baud_rate: u32,
}

/// Everything that can go wrong at the command surface or in a background
/// task.
#[derive(Clone, PartialEq, Eq, Debug)]
pub enum SessionError {
    /// The configured path is not among the currently enumerated ports.
    PortNotAvailable,
    /// The device refused to open; carries the transport's own message.
    OpenFailure(String),
    /// The command needs an open device and there is none.
    NotConnected,
    /// A synchronous write failed; carries the transport's own message.
    WriteFailure(String),
    /// A non-timeout read error; always fatal to the session.
    ReadFailure(String),
    /// A recording file could not be created; fatal while recording.
    FileCreateFailure(String),
    /// Recording was requested before a recording folder was set.
    FolderNotSet,
    /// The connection cannot be toggled while recording is active.
    RecordingInProgress,
    /// The configuration cannot be replaced while the connection is open.
    InvalidConfig,
}

/// Which background task is bound to the open device. At most one is alive
/// at any time.
#[derive(Clone, Copy, PartialEq, Eq, Structural, Debug)]
pub enum TaskKind {
    Reader,
    Recorder,
}

/// What the caller of `toggle_connection_plan` must do next.
#[derive(Clone, PartialEq, Eq, Debug)]
pub enum ConnectPlan {
    /// Open the device at this path and baud rate, then commit with
    /// `apply_open` on success.
    OpenDevice { port_path: String, baud_rate: u32 },
    /// Signal the background task to stop, wait for its acknowledgement,
    /// close the device, then commit with `apply_close`.
    CloseDevice,
}

/// What the caller of `toggle_recording_plan` must do next.
#[derive(Clone, PartialEq, Eq, Debug)]
pub enum RecordPlan {
    /// Create a recording file in this folder, then commit with
    /// `apply_start_recording`; a failed create leaves the session as it was.
    StartRecording { folder: String },
    /// Tear the whole session down (stop the recorder, close the device,
    /// commit with `apply_close`); reconnect afterwards if plain monitoring
    /// should continue.
    StopRecording,
}

/// Whether a sequence of port names contains the given path.
pub open spec fn ports_contain(ports: Seq<String>, path: Seq<char>) -> bool {
    exists|i: int| 0 <= i < ports.len() && ports[i]@ == path
}

/// The single session: configuration, the open device (if any), the one
/// background task bound to it, the cancellation flag, and the recording
/// state.
pub struct SessionManager {
    pub config: PortItems,
    /// Opaque identifier of the open device; `None` while closed.
    pub handle: Option<u64>,
    /// The background task bound to the open device.
    pub task: Option<TaskKind>,
    /// The shared run flag the background task polls: true while it should
    /// keep running.
    pub running: bool,
    /// Whether raw traffic is being persisted to rotating files.
    pub recording: bool,
    /// Folder for recording files, kept for the next recording start.
    pub folder: Option<String>,
}

/// The state after a successful open: the device is held, one reader task
/// runs, nothing is recorded.
pub open spec fn spec_opened(s: SessionManager, device: u64) -> SessionManager {
    SessionManager {
        handle: Some(device),
        task: Some(TaskKind::Reader),
        running: true,
        recording: false,
        ..s
    }
}

/// The state after a close: no device, no task, no recording; configuration
/// and folder kept.
pub open spec fn spec_closed(s: SessionManager) -> SessionManager {
    SessionManager { handle: None, task: None, running: false, recording: false, ..s }
}

/// The state after recording starts on an open session: the same device now
/// feeds a recorder task instead of the plain reader.
pub open spec fn spec_recording(s: SessionManager) -> SessionManager {
    SessionManager { task: Some(TaskKind::Recorder), recording: true, ..s }
}

impl SessionManager {
    /// A device is held exactly while one background task is alive and the
    /// run flag stands; recording happens exactly under a recorder task, and
    /// only with a folder configured.
    pub open spec fn wf(&self) -> bool {
        &&& self.handle is Some <==> self.task is Some
        &&& self.running <==> self.task is Some
        &&& self.recording <==> self.task == Some(TaskKind::Recorder)
        &&& self.recording ==> self.folder is Some
    }

    /// The closed state the process starts in: nothing configured, nothing
    /// open, nothing recorded.
    pub fn new() -> (s: SessionManager)
        ensures
            s.wf(),
            s.handle is None,
            s.task is None,
            !s.running,
            !s.recording,
            s.folder is None,
            s.config.port_path@ == Seq::<char>::empty(),
            s.config.baud_rate == 0,
    {
        SessionManager {
            config: PortItems { port_path: String::new(), baud_rate: 0 },
            handle: None,
            task: None,
            running: false,
            recording: false,
            folder: None,
        }
    }

    /// Replaces the device configuration, but only while disconnected.
    pub fn configure(&mut self, port_path: String, baud_rate: u32) -> (r: Result<
        (),
        SessionError,
    >)
        requires
            old(self).wf(),
        ensures
            final(self).wf(),
            old(self).handle is Some ==> r == Err::<(), SessionError>(SessionError::InvalidConfig)
                && *final(self) == *old(self),
            old(self).handle is None ==> r is Ok && *final(self) == (SessionManager {
                config: PortItems { port_path, baud_rate },
                ..*old(self)
            }),
    {
        if self.handle.is_some() {
            Err(SessionError::InvalidConfig)
        } else {
            self.config = PortItems { port_path, baud_rate };
            Ok(())
        }
    }

    /// Stores the folder used by the next recording start; callable in
    /// either connection state.
    pub fn set_recording_folder(&mut self, folder: String)
        requires
            old(self).wf(),
        ensures
            final(self).wf(),
            *final(self) == (SessionManager { folder: Some(folder), ..*old(self) }),
    {
        self.folder = Some(folder);
    }

    /// Decides what toggling the connection means in the current state:
    /// refused outright while recording; a close while open; an open of the
    /// configured port while closed, provided that port is currently
    /// enumerated.
    pub fn toggle_connection_plan(&self, ports: &Vec<String>) -> (r: Result<
        ConnectPlan,
        SessionError,
    >)
        requires
            self.wf(),
        ensures
            self.recording ==> r == Err::<ConnectPlan, SessionError>(
                SessionError::RecordingInProgress,
            ),
            !self.recording && self.handle is Some ==> r matches Ok(ConnectPlan::CloseDevice),
            self.handle is None && !ports_contain(ports@, self.config.port_path@) ==> r == Err::<
                ConnectPlan,
                SessionError,
            >(SessionError::PortNotAvailable),
            self.handle is None && ports_contain(ports@, self.config.port_path@) ==> (r matches Ok(
                ConnectPlan::OpenDevice { port_path, baud_rate },
            ) && port_path == self.config.port_path && baud_rate == self.config.baud_rate),
    {
        if self.recording {
            return Err(SessionError::RecordingInProgress);
        }
        if self.handle.is_some() {
            return Ok(ConnectPlan::CloseDevice);
        }
        let mut i: usize = 0;
        let mut found = false;
        while i < ports.len()
            invariant
                i <= ports.len(),
                found <==> exists|k: int|
                    0 <= k < i && ports@[k]@ == self.config.port_path@,
            decreases ports.len() - i,
        {
            if ports[i].eq(&self.config.port_path) {
                found = true;
            }
            i = i + 1;
        }
        if !found {
            return Err(SessionError::PortNotAvailable);
        }
        Ok(
            ConnectPlan::OpenDevice {
                port_path: self.config.port_path.clone(),
                baud_rate: self.config.baud_rate,
            },
        )
    }

    /// Commits the outcome of the planned open. A device that opened is held
    /// and a fresh reader task is bound to it; a refusal leaves the session
    /// exactly as it was and comes back as an open failure with the
    /// transport's message.
    pub fn open_outcome(&mut self, opened: Result<u64, String>) -> (r: Result<bool, SessionError>)
        requires
            old(self).wf(),
            old(self).handle is None,
        ensures
            final(self).wf(),
            opened matches Ok(device) ==> r == Ok::<bool, SessionError>(true) && *final(self)
                == spec_opened(*old(self), device),
            opened matches Err(e) ==> r == Err::<bool, SessionError>(SessionError::OpenFailure(e))
                && *final(self) == *old(self),
    {
        match opened {
            Ok(device) => {
                self.handle = Some(device);
                self.task = Some(TaskKind::Reader);
                self.running = true;
                self.recording = false;
                Ok(true)
            },
            Err(e) => Err(SessionError::OpenFailure(e)),
        }
    }

    /// Commits a teardown, whether user-requested, a recording stop, or a
    /// fatal error in a background task: the handle and the task are gone
    /// and the recording flag is cleared.
    pub fn apply_close(&mut self)
        requires
            old(self).wf(),
        ensures
            final(self).wf(),
            *final(self) == spec_closed(*old(self)),
    {
        self.handle = None;
        self.task = None;
        self.running = false;
        self.recording = false;
    }

    /// Idempotent close: tears the session down and reports whether a
    /// connection was actually open.
    pub fn disconnect(&mut self) -> (was_connected: bool)
        requires
            old(self).wf(),
        ensures
            final(self).wf(),
            was_connected == (old(self).handle is Some),
            *final(self) == spec_closed(*old(self)),
    {
        let was_connected = self.handle.is_some();
        self.handle = None;
        self.task = None;
        self.running = false;
        self.recording = false;
        was_connected
    }

    /// Checks that a synchronous write may proceed and hands back the open
    /// device's identifier; the session itself is never altered by a send.
    pub fn send_check(&self) -> (r: Result<u64, SessionError>)
        requires
            self.wf(),
        ensures
            self.handle is Some ==> r == Ok::<u64, SessionError>(self.handle->0),
            self.handle is None ==> r == Err::<u64, SessionError>(SessionError::NotConnected),
    {
        match self.handle {
            Some(device) => Ok(device),
            None => Err(SessionError::NotConnected),
        }
    }

    /// Decides what toggling the recording state means: a start needs an
    /// open device and a configured folder; a stop tears the session down.
    pub fn toggle_recording_plan(&self) -> (r: Result<RecordPlan, SessionError>)
        requires
            self.wf(),
        ensures
            self.recording ==> r matches Ok(RecordPlan::StopRecording),
            self.handle is None ==> r == Err::<RecordPlan, SessionError>(
                SessionError::NotConnected,
            ) && !self.recording,
            !self.recording && self.handle is Some && self.folder is None ==> r == Err::<
                RecordPlan,
                SessionError,
            >(SessionError::FolderNotSet),
            !self.recording && self.handle is Some && self.folder is Some ==> (r matches Ok(
                RecordPlan::StartRecording { folder },
            ) && folder == self.folder->0),
    {
        if self.recording {
            return Ok(RecordPlan::StopRecording);
        }
        match &self.handle {
            None => Err(SessionError::NotConnected),
            Some(_) => {
                match &self.folder {
                    None => Err(SessionError::FolderNotSet),
                    Some(folder) => Ok(RecordPlan::StartRecording { folder: folder.clone() }),
                }
            },
        }
    }

    /// Commits the outcome of the planned recording start. With the first
    /// file created, the open device's traffic now goes through a recorder
    /// task in place of the plain reader; a failed create leaves the session
    /// exactly as it was and comes back as a file-create failure.
    pub fn record_start_outcome(&mut self, created: Result<(), String>) -> (r: Result<
        bool,
        SessionError,
    >)
        requires
            old(self).wf(),
            old(self).handle is Some,
            !old(self).recording,
            old(self).folder is Some,
        ensures
            final(self).wf(),
            created is Ok ==> r == Ok::<bool, SessionError>(true) && *final(self) == spec_recording(
                *old(self),
            ),
            created matches Err(e) ==> r == Err::<bool, SessionError>(
                SessionError::FileCreateFailure(e),
            ) && *final(self) == *old(self),
    {
        match created {
            Ok(()) => {
                self.task = Some(TaskKind::Recorder);
                self.recording = true;
                Ok(true)
            },
            Err(e) => Err(SessionError::FileCreateFailure(e)),
        }
    }
}

/// Normalizes the outcome of port enumeration: the listed names on success,
/// the empty list on failure — enumeration never raises.
pub fn list_ports(enumerated: Option<Vec<String>>) -> (ports: Vec<String>)
    ensures
        enumerated matches Some(v) ==> ports == v,
        enumerated is None ==> ports@ == Seq::<String>::empty(),
{
    match enumerated {
        Some(v) => v,
        None => Vec::new(),
    }
}

/// Maps the outcome of a synchronous device write to the command surface's
/// result: the byte count through, the transport's message as a write
/// failure.
pub fn send_outcome(write_result: Result<usize, String>) -> (r: Result<usize, SessionError>)
    ensures
        write_result matches Ok(n) ==> r == Ok::<usize, SessionError>(n),
        write_result matches Err(e) ==> r == Err::<usize, SessionError>(
            SessionError::WriteFailure(e),
        ),
{
    match write_result {
        Ok(n) => Ok(n),
        Err(e) => Err(SessionError::WriteFailure(e)),
    }
}

/// Toggling the connection twice returns to the start: opening from a
/// well-formed closed state and then closing yields exactly the state the
/// session began in.
pub proof fn lemma_toggle_connection_round_trip(s: SessionManager, device: u64)
    requires
        s.wf(),
        s.handle is None,
    ensures
        spec_closed(spec_opened(s, device)) == s,
{
    assert(s.task is None);
    assert(!s.running);
    assert(!s.recording);
}

} // verus!
