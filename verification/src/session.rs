//! The state of a capture session, and what its commands decide.
//!
//! Opening devices and reading frames happens outside this library. A
//! command is given how that went and says what follows from it.

use vstd::prelude::*;
use vstd::string::StringExecFns;

verus! {

/// Bytes captured of each frame.
pub const SNAPLEN: i32 = 65535;

/// How it went to open a capture handle on the first device and to compile
/// a filter expression on it.
#[derive(Debug, Clone, Copy, PartialEq, Eq, Structural)]
pub enum FilterCheck {
    /// Looking for a device failed.
    LookupFailed,
    /// There is no device.
    NoDevice,
    /// No capture could be set up on the device.
    CaptureFailed,
    /// The capture handle could not be opened.
    OpenFailed,
    /// The expression did not compile.
    Rejected,
    /// The expression compiled.
    Accepted,
}

/// What a filter expression is checked for.
#[derive(Debug, Clone, Copy, PartialEq, Eq, Structural)]
pub enum Purpose {
    /// To be attached to the live capture.
    Capture,
    /// To be replayed on records.
    Replay,
}

/// The kinds of failure of a command.
#[derive(Debug, Clone, Copy, PartialEq, Eq, Structural)]
pub enum ErrorKind {
    DeviceUnavailable,
    CaptureOpenError,
    InvalidFilterSyntax,
    FilterCompileError,
}

/// A failure of a command, with the text that the caller is shown.
#[derive(Debug)]
pub struct SessionError {
    pub kind: ErrorKind,
    pub message: String,
}

/// The kind of failure that a check stands for; none where the
/// expression compiled.
pub open spec fn failure_kind(check: FilterCheck, purpose: Purpose) -> Option<ErrorKind> {
    match check {
        FilterCheck::LookupFailed => Some(ErrorKind::DeviceUnavailable),
        FilterCheck::NoDevice => Some(ErrorKind::DeviceUnavailable),
        FilterCheck::CaptureFailed => Some(ErrorKind::CaptureOpenError),
        FilterCheck::OpenFailed => Some(ErrorKind::CaptureOpenError),
        FilterCheck::Rejected => match purpose {
            Purpose::Capture => Some(ErrorKind::InvalidFilterSyntax),
            Purpose::Replay => Some(ErrorKind::FilterCompileError),
        },
        FilterCheck::Accepted => None,
    }
}

/// The text shown for a failed check, around the text `detail` that the
/// capture library gave for it.
pub open spec fn failure_message(check: FilterCheck, purpose: Purpose, detail: Seq<char>) -> Seq<
    char,
> {
    match check {
        FilterCheck::LookupFailed => "Device lookup error: "@ + detail,
        FilterCheck::NoDevice => "No device found"@,
        FilterCheck::CaptureFailed => "Capture error: "@ + detail,
        FilterCheck::OpenFailed => "Open capture error: "@ + detail,
        FilterCheck::Rejected => match purpose {
            Purpose::Capture => "Invalid filter syntax: "@ + detail,
            Purpose::Replay => "Failed to compile filter: "@ + detail,
        },
        FilterCheck::Accepted => Seq::empty(),
    }
}

/// The failure that a check stands for; none where the expression
/// compiled.
pub fn check_failure(check: FilterCheck, purpose: Purpose, detail: &str) -> (failure: Option<
    SessionError,
>)
    ensures
        match failure {
            Some(error) => failure_kind(check, purpose) == Some(error.kind) && error.message@
                == failure_message(check, purpose, detail@),
            None => check == FilterCheck::Accepted,
        },
{
    let (kind, lead) = match check {
        FilterCheck::LookupFailed => (ErrorKind::DeviceUnavailable, "Device lookup error: "),
        FilterCheck::NoDevice => {
            return Some(
                SessionError {
                    kind: ErrorKind::DeviceUnavailable,
                    message: String::from_str("No device found"),
                },
            );
        },
        FilterCheck::CaptureFailed => (ErrorKind::CaptureOpenError, "Capture error: "),
        FilterCheck::OpenFailed => (ErrorKind::CaptureOpenError, "Open capture error: "),
        FilterCheck::Rejected => match purpose {
            Purpose::Capture => (ErrorKind::InvalidFilterSyntax, "Invalid filter syntax: "),
            Purpose::Replay => (ErrorKind::FilterCompileError, "Failed to compile filter: "),
        },
        FilterCheck::Accepted => {
            return None;
        },
    };
    let mut message = String::from_str(lead);
    message.append(detail);
    Some(SessionError { kind, message })
}

/// What a `CaptureSession` stands for.
pub struct SessionState {
    /// Whether capture is meant to run.
    pub running: bool,
    /// The filter expression for the next capture; empty for none.
    pub filter: Seq<char>,
}

impl SessionState {
    /// The state after a filter expression was checked for capture: the
    /// expression is stored where it compiled, and nothing changes where
    /// it did not.
    pub open spec fn with_filter(self, filter: Seq<char>, check: FilterCheck) -> SessionState {
        if check == FilterCheck::Accepted {
            SessionState { running: self.running, filter }
        } else {
            self
        }
    }

    /// The filter that a capture loop beginning in this state attaches:
    /// the stored expression, unless it is empty.
    pub open spec fn capture_filter(self) -> Option<Seq<char>> {
        if self.filter.len() == 0 {
            None
        } else {
            Some(self.filter)
        }
    }
}

/// A filter expression that did not pass its check leaves the session as
/// it was: a capture loop that begins afterwards attaches the filter that
/// it would have attached before.
pub proof fn lemma_refused_filter_changes_nothing(
    state: SessionState,
    filter: Seq<char>,
    check: FilterCheck,
)
    requires
        check != FilterCheck::Accepted,
    ensures
        state.with_filter(filter, check) == state,
        state.with_filter(filter, check).capture_filter() == state.capture_filter(),
{
}

/// How a capture is to be opened.
#[derive(Debug)]
pub struct CapturePlan {
    /// Frames are delivered as they arrive.
    pub immediate_mode: bool,
    /// Bytes captured of each frame.
    pub snaplen: i32,
    /// Frames not addressed to the device are captured too.
    pub promiscuous: bool,
    /// The filter to compile and attach before the first frame is read.
    pub filter: Option<String>,
}

/// One capture session: whether it runs, and the filter of its next
/// capture.
#[derive(Debug)]
pub struct CaptureSession {
    running: bool,
    filter: String,
}

impl View for CaptureSession {
    type V = SessionState;

    closed spec fn view(&self) -> SessionState {
        SessionState { running: self.running, filter: self.filter@ }
    }
}

impl CaptureSession {
    /// A session that does not run and has no filter.
    pub fn new() -> (session: CaptureSession)
        ensures
            session@ == (SessionState { running: false, filter: Seq::empty() }),
    {
        CaptureSession { running: false, filter: String::new() }
    }

    /// Whether capture is meant to run. The capture loop asks this before
    /// each frame.
    pub fn is_running(&self) -> (running: bool)
        ensures
            running == self@.running,
    {
        self.running
    }

    /// The stored filter expression.
    pub fn filter(&self) -> (filter: &str)
        ensures
            filter@ == self@.filter,
    {
        self.filter.as_str()
    }

    /// Stores a filter expression for the next capture, given how its
    /// check went, with the text `detail` that the capture library gave
    /// for a failure. Only an expression that compiled is stored; any
    /// failure is returned and leaves the session unchanged.
    pub fn set_packet_filter(&mut self, filter: String, check: FilterCheck, detail: &str) -> (done:
        Result<(), SessionError>)
        ensures
            final(self)@ == old(self)@.with_filter(filter@, check),
            match done {
                Ok(_) => check == FilterCheck::Accepted,
                Err(error) => failure_kind(check, Purpose::Capture) == Some(error.kind)
                    && error.message@ == failure_message(check, Purpose::Capture, detail@),
            },
    {
        match check_failure(check, Purpose::Capture, detail) {
            Some(error) => Err(error),
            None => {
                self.filter = filter;
                Ok(())
            },
        }
    }

    /// Marks the session as running. Starting a session that runs
    /// changes nothing.
    pub fn start_packet_capture(&mut self)
        ensures
            final(self)@ == (SessionState { running: true, filter: old(self)@.filter }),
    {
        self.running = true;
    }

    /// How a capture is to be opened now. The capture loop asks this once,
    /// when it begins: a filter stored later does not reach a loop that
    /// has begun.
    pub fn capture_plan(&self) -> (plan: CapturePlan)
        ensures
            plan.immediate_mode,
            plan.snaplen == SNAPLEN,
            plan.promiscuous,
            match plan.filter {
                Some(filter) => self@.capture_filter() == Some(filter@),
                None => self@.capture_filter() is None,
            },
    {
        let filter = if self.filter.as_str().is_empty() {
            None
        } else {
            Some(self.filter.clone())
        };
        CapturePlan { immediate_mode: true, snaplen: SNAPLEN, promiscuous: true, filter }
    }

    /// Marks the session as stopped. The capture loop ends when it next
    /// asks `is_running`.
    pub fn stop_packet_capture(&mut self)
        ensures
            final(self)@ == (SessionState { running: false, filter: old(self)@.filter }),
    {
        self.running = false;
    }
}

} // verus!
