use vstd::prelude::*;
use crate::window::{remainder_of, views, windows_of, WindowBuffer};

verus! {

/// A command sent from the control path to the audio-handling path.
#[derive(Debug)]
pub enum StreamCommand {
    Stop,
}

/// Why a start or stop request, or a step of the pipeline, failed.
#[derive(Clone, Copy, Debug, PartialEq, Eq, Structural)]
pub enum SessionError {
    DeviceUnavailable,
    ConfigUnsupported,
    InvalidFrequency,
    AlreadyRunning,
    NotRunning,
}

impl SessionError {
    /// The description of the failure that the caller receives.
    pub open spec fn text(self) -> Seq<char> {
        match self {
            SessionError::DeviceUnavailable => "no default input device"@,
            SessionError::ConfigUnsupported => "unsupported stream configuration"@,
            SessionError::InvalidFrequency => "frequency must be positive"@,
            SessionError::AlreadyRunning => "pitch detection is already running"@,
            SessionError::NotRunning => "pitch detection is not running"@,
        }
    }

    /// The description of the failure that the caller receives.
    pub fn message(&self) -> (r: &'static str)
        ensures
            r@ == self.text(),
    {
        match self {
            SessionError::DeviceUnavailable => {
                proof { reveal_strlit("no default input device"); }
                "no default input device"
            },
            SessionError::ConfigUnsupported => {
                proof { reveal_strlit("unsupported stream configuration"); }
                "unsupported stream configuration"
            },
            SessionError::InvalidFrequency => {
                proof { reveal_strlit("frequency must be positive"); }
                "frequency must be positive"
            },
            SessionError::AlreadyRunning => {
                proof { reveal_strlit("pitch detection is already running"); }
                "pitch detection is already running"
            },
            SessionError::NotRunning => {
                proof { reveal_strlit("pitch detection is not running"); }
                "pitch detection is not running"
            },
        }
    }
}

/// Where the single capture session is in its lifecycle.
#[derive(Clone, Copy, Debug, PartialEq, Eq, Structural)]
pub enum SessionState {
    Idle,
    Starting,
    Streaming,
    Stopping,
}

/// A start request is accepted only when no session exists.
pub open spec fn start_accepted(s: SessionState) -> bool {
    s == SessionState::Idle
}

/// The state after a start request.
pub open spec fn after_start(s: SessionState) -> SessionState {
    if start_accepted(s) {
        SessionState::Starting
    } else {
        s
    }
}

/// A stop request is accepted while a session is starting or streaming;
/// stopping while idle, or while a stop is under way, is refused.
pub open spec fn stop_accepted(s: SessionState) -> bool {
    s == SessionState::Starting || s == SessionState::Streaming
}

/// The state after a stop request.
pub open spec fn after_stop(s: SessionState) -> SessionState {
    if stop_accepted(s) {
        SessionState::Stopping
    } else {
        s
    }
}

/// The state once the device handle has been released: a session that was
/// stopping becomes idle.
pub open spec fn after_release(s: SessionState) -> SessionState {
    if s == SessionState::Stopping {
        SessionState::Idle
    } else {
        s
    }
}

/// Keeps at most one capture session alive and decides each start and stop
/// request; the caller performs the device work and reports its outcome.
pub struct SessionController {
    state: SessionState,
}

impl SessionController {
    pub closed spec fn state(&self) -> SessionState {
        self.state
    }

    /// A controller with no session.
    pub fn new() -> (r: Self)
        ensures
            r.state() == SessionState::Idle,
    {
        SessionController { state: SessionState::Idle }
    }

    /// The current lifecycle state.
    pub fn current(&self) -> (r: SessionState)
        ensures
            r == self.state(),
    {
        self.state
    }

    /// Whether chunks arriving from the device are to be analysed.
    pub fn accepts_chunks(&self) -> (r: bool)
        ensures
            r == (self.state() == SessionState::Streaming),
    {
        match self.state {
            SessionState::Streaming => true,
            _ => false,
        }
    }

    /// Asks to start a session. Succeeds, and moves to `Starting`, only from
    /// `Idle`; otherwise fails with `AlreadyRunning` and changes nothing.
    pub fn request_start(&mut self) -> (r: Result<(), SessionError>)
        ensures
            final(self).state() == after_start(old(self).state()),
            r is Ok <==> start_accepted(old(self).state()),
            r is Err ==> r == Err::<(), SessionError>(SessionError::AlreadyRunning),
    {
        match self.state {
            SessionState::Idle => {
                self.state = SessionState::Starting;
                Ok(())
            },
            _ => Err(SessionError::AlreadyRunning),
        }
    }

    /// Reports that the device stream is live. A session that was starting
    /// is now streaming and `true` is returned; in any other state nothing
    /// changes and `false` tells the caller to close the stream it opened.
    pub fn stream_started(&mut self) -> (r: bool)
        ensures
            r == (old(self).state() == SessionState::Starting),
            final(self).state() == (if r {
                SessionState::Streaming
            } else {
                old(self).state()
            }),
    {
        match self.state {
            SessionState::Starting => {
                self.state = SessionState::Streaming;
                true
            },
            _ => false,
        }
    }

    /// Reports that opening the device failed with `e`. A session that was
    /// starting is dropped and back to `Idle`; a session that was already
    /// asked to stop is released too. `e` is handed back for the caller.
    pub fn start_failed(&mut self, e: SessionError) -> (r: SessionError)
        ensures
            r == e,
            final(self).state() == (if old(self).state() == SessionState::Starting
                || old(self).state() == SessionState::Stopping {
                SessionState::Idle
            } else {
                old(self).state()
            }),
    {
        match self.state {
            SessionState::Starting => {
                self.state = SessionState::Idle;
            },
            SessionState::Stopping => {
                self.state = SessionState::Idle;
            },
            _ => {},
        }
        e
    }

    /// Asks to stop the session. Succeeds, and moves to `Stopping`, while a
    /// session is starting or streaming; otherwise fails with `NotRunning`
    /// and changes nothing.
    pub fn request_stop(&mut self) -> (r: Result<(), SessionError>)
        ensures
            final(self).state() == after_stop(old(self).state()),
            r is Ok <==> stop_accepted(old(self).state()),
            r is Err ==> r == Err::<(), SessionError>(SessionError::NotRunning),
    {
        match self.state {
            SessionState::Starting => {
                self.state = SessionState::Stopping;
                Ok(())
            },
            SessionState::Streaming => {
                self.state = SessionState::Stopping;
                Ok(())
            },
            _ => Err(SessionError::NotRunning),
        }
    }

    /// Reports a persistent device error while streaming: the session stops
    /// gracefully, as if a stop had been requested.
    pub fn stream_failed(&mut self)
        ensures
            final(self).state() == (if old(self).state() == SessionState::Streaming {
                SessionState::Stopping
            } else {
                old(self).state()
            }),
    {
        match self.state {
            SessionState::Streaming => {
                self.state = SessionState::Stopping;
            },
            _ => {},
        }
    }

    /// Reports that the device handle has been released: a stopping session
    /// is now idle.
    pub fn stream_released(&mut self)
        ensures
            final(self).state() == after_release(old(self).state()),
    {
        match self.state {
            SessionState::Stopping => {
                self.state = SessionState::Idle;
            },
            _ => {},
        }
    }
}

/// Once a streaming session has been asked to stop and its device released,
/// the controller is idle and a new start request is accepted.
pub proof fn lemma_restart_after_stop(s: SessionState)
    requires
        s == SessionState::Streaming || s == SessionState::Starting,
    ensures
        stop_accepted(s),
        after_release(after_stop(s)) == SessionState::Idle,
        start_accepted(after_release(after_stop(s))),
        after_start(after_release(after_stop(s))) == SessionState::Starting,
{
}

/// A start request never leads to a second live session: it is accepted only
/// from `Idle`, and any other state is left as it was.
pub proof fn lemma_single_session(s: SessionState)
    ensures
        start_accepted(s) ==> s == SessionState::Idle && after_start(s) == SessionState::Starting,
        !start_accepted(s) ==> after_start(s) == s,
{
}

/// The audio-handling side of a session: it owns the backlog of samples,
/// cuts it into analysis windows and, once told to stop, accepts no further
/// chunk.
pub struct CaptureSession<T> {
    buffer: WindowBuffer<T>,
    stopped: bool,
}

impl<T: Copy> CaptureSession<T> {
    pub closed spec fn backlog(&self) -> Seq<T> {
        self.buffer.backlog()
    }

    pub closed spec fn size(&self) -> nat {
        self.buffer.size()
    }

    pub closed spec fn stopped(&self) -> bool {
        self.stopped
    }

    pub closed spec fn wf(&self) -> bool {
        self.buffer.wf()
    }

    /// A running session with an empty backlog and windows of `size` samples.
    pub fn new(size: usize) -> (r: Self)
        requires
            size > 0,
        ensures
            r.wf(),
            r.size() == size,
            r.backlog() == Seq::<T>::empty(),
            !r.stopped(),
    {
        CaptureSession { buffer: WindowBuffer::new(size), stopped: false }
    }

    /// The number of samples waiting for a window to fill.
    pub fn pending(&self) -> (r: usize)
        requires
            self.wf(),
        ensures
            r == self.backlog().len(),
    {
        self.buffer.pending()
    }

    /// Whether a stop command has been received.
    pub fn is_stopped(&self) -> (r: bool)
        ensures
            r == self.stopped(),
    {
        self.stopped
    }

    /// Applies a command from the control path.
    pub fn handle_command(&mut self, cmd: StreamCommand)
        ensures
            final(self).stopped(),
            final(self).backlog() == old(self).backlog(),
            final(self).size() == old(self).size(),
            final(self).wf() == old(self).wf(),
    {
        match cmd {
            StreamCommand::Stop => {
                self.stopped = true;
            },
        }
    }

    /// Takes a chunk delivered by the device. While running, the chunk joins
    /// the backlog and every window completed is handed out in order; once
    /// stopped, the chunk is refused, nothing is handed out and nothing
    /// changes.
    pub fn on_chunk(&mut self, chunk: &[T]) -> (r: Vec<Vec<T>>)
        requires
            old(self).wf(),
            old(self).backlog().len() + chunk@.len() <= usize::MAX,
        ensures
            final(self).wf(),
            final(self).size() == old(self).size(),
            final(self).stopped() == old(self).stopped(),
            old(self).stopped() ==> r@.len() == 0 && final(self).backlog() == old(self).backlog(),
            !old(self).stopped() ==> views(r@) == windows_of(
                old(self).backlog() + chunk@,
                old(self).size(),
            ) && final(self).backlog() == remainder_of(
                old(self).backlog() + chunk@,
                old(self).size(),
            ),
    {
        if self.stopped {
            Vec::new()
        } else {
            self.buffer.push(chunk)
        }
    }
}

} // verus!
