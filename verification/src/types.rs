//! Plain data shared by every part of the capture engine: how an output is
//! named by the caller, what a capture produces, the errors, and the session
//! state machine.

use vstd::prelude::*;
use vstd::string::*;

verus! {

/// A caller's way of picking one output of the compositor.
#[derive(Debug, Clone, PartialEq, Eq)]
pub enum OutputIdentifier {
    /// The connector name, such as `eDP-1`.
    Name(String),
    /// The human-readable description.
    Description(String),
    /// Vendor and model, both of which must agree.
    Metadata { make: String, model: String },
}

/// The mathematical value of an [`OutputIdentifier`].
pub enum IdentifierView {
    Name(Seq<char>),
    Description(Seq<char>),
    Metadata { make: Seq<char>, model: Seq<char> },
}

impl View for OutputIdentifier {
    type V = IdentifierView;

    open spec fn view(&self) -> IdentifierView {
        match *self {
            OutputIdentifier::Name(name) => IdentifierView::Name(name@),
            OutputIdentifier::Description(text) => IdentifierView::Description(text@),
            OutputIdentifier::Metadata { make, model } => IdentifierView::Metadata {
                make: make@,
                model: model@,
            },
        }
    }
}

/// What a capture produces: one still image or a continuous stream of frames.
#[derive(Debug, Clone, Copy, PartialEq, Eq, Structural)]
pub enum CaptureType {
    Frame,
    Stream,
}

/// Everything that can go wrong in the engine.
#[derive(Debug, Clone, PartialEq, Eq)]
pub enum CapturerError {
    /// No session with the display server could be established.
    ConnectionFailed,
    /// The compositor lacks a protocol extension that the engine needs.
    ProtocolUnavailable { interface: String },
    /// No complete output record satisfies the identifier.
    OutputNotFound,
    /// An output's attributes ended before a required one had arrived.
    MissingAttribute { field: String },
    /// A session transition was asked for in a state that does not allow it.
    InvalidTransition { found: String, expected: Vec<String>, to: String },
    /// No buffer could be set aside for the negotiated shape.
    AllocationFailed,
    /// The negotiated pixel layout is not one the engine converts.
    UnsupportedPixelFormat,
    /// The compositor could not complete the copy.
    CopyFailed,
    /// The captured frame could not be encoded or written.
    IoWriteFailed,
}

/// The mathematical value of a [`CapturerError`].
pub enum ErrorView {
    ConnectionFailed,
    ProtocolUnavailable { interface: Seq<char> },
    OutputNotFound,
    MissingAttribute { field: Seq<char> },
    InvalidTransition { found: Seq<char>, expected: Seq<Seq<char>>, to: Seq<char> },
    AllocationFailed,
    UnsupportedPixelFormat,
    CopyFailed,
    IoWriteFailed,
}

impl View for CapturerError {
    type V = ErrorView;

    open spec fn view(&self) -> ErrorView {
        match *self {
            CapturerError::ConnectionFailed => ErrorView::ConnectionFailed,
            CapturerError::ProtocolUnavailable { interface } => ErrorView::ProtocolUnavailable {
                interface: interface@,
            },
            CapturerError::OutputNotFound => ErrorView::OutputNotFound,
            CapturerError::MissingAttribute { field } => ErrorView::MissingAttribute {
                field: field@,
            },
            CapturerError::InvalidTransition { found, expected, to } => {
                ErrorView::InvalidTransition {
                    found: found@,
                    expected: Seq::new(expected@.len(), |i: int| expected@[i]@),
                    to: to@,
                }
            },
            CapturerError::AllocationFailed => ErrorView::AllocationFailed,
            CapturerError::UnsupportedPixelFormat => ErrorView::UnsupportedPixelFormat,
            CapturerError::CopyFailed => ErrorView::CopyFailed,
            CapturerError::IoWriteFailed => ErrorView::IoWriteFailed,
        }
    }
}

/// The moment at which the compositor completed a frame, in whole seconds and
/// nanoseconds of its presentation clock.
#[derive(Debug, Clone, Copy, PartialEq, Eq, Structural)]
pub struct FrameTime {
    pub secs: u64,
    pub nanos: u32,
}

impl FrameTime {
    /// The moment as a count of nanoseconds.
    pub open spec fn total_nanos(self) -> int {
        self.secs * 1_000_000_000 + self.nanos
    }

    /// Joins the two halves in which the protocol sends the seconds.
    pub fn from_wire(sec_hi: u32, sec_lo: u32, nsec: u32) -> (t: FrameTime)
        ensures
            t.secs == sec_hi * 0x1_0000_0000 + sec_lo,
            t.nanos == nsec,
    {
        let hi: u64 = sec_hi as u64;
        let lo: u64 = sec_lo as u64;
        assert((hi << 32) | lo == hi * 0x1_0000_0000 + lo) by (bit_vector)
            requires
                hi < 0x1_0000_0000,
                lo < 0x1_0000_0000,
        ;
        FrameTime { secs: (hi << 32) | lo, nanos: nsec }
    }
}

/// The frame rate between two completions, in frames per thousand seconds,
/// rounded down; nothing where the clock did not advance.
pub open spec fn spec_frame_rate(previous: FrameTime, current: FrameTime) -> Option<int> {
    if current.total_nanos() > previous.total_nanos() {
        Some(1_000_000_000_000int / (current.total_nanos() - previous.total_nanos()))
    } else {
        None
    }
}

/// Computes [`spec_frame_rate`].
pub fn frame_rate_millihertz(previous: FrameTime, current: FrameTime) -> (rate: Option<u64>)
    ensures
        match spec_frame_rate(previous, current) {
            Some(value) => rate == Some(value as u64) && value <= 1_000_000_000_000,
            None => rate is None,
        },
{
    let before: u128 = previous.secs as u128 * 1_000_000_000 + previous.nanos as u128;
    let after: u128 = current.secs as u128 * 1_000_000_000 + current.nanos as u128;
    if after > before {
        let elapsed: u128 = after - before;
        let rate: u128 = 1_000_000_000_000u128 / elapsed;
        assert(rate <= 1_000_000_000_000) by (nonlinear_arith)
            requires
                elapsed >= 1,
                rate == 1_000_000_000_000u128 / elapsed,
        ;
        Some(rate as u64)
    } else {
        None
    }
}

/// The five states of a capture session, without what they carry.
#[derive(Debug, Clone, Copy, PartialEq, Eq, Structural)]
pub enum StatusKind {
    NotStarted,
    Pending,
    Running,
    Done,
    Failed,
}

impl StatusKind {
    /// The state's name as it appears in an error.
    pub open spec fn name(self) -> Seq<char> {
        match self {
            StatusKind::NotStarted => "NotStarted"@,
            StatusKind::Pending => "Pending"@,
            StatusKind::Running => "Running"@,
            StatusKind::Done => "Done"@,
            StatusKind::Failed => "Failed"@,
        }
    }

    /// Whether a session at rest is in this state: one that has not begun, or
    /// has ended.
    pub open spec fn at_rest(self) -> bool {
        self == StatusKind::NotStarted || self == StatusKind::Done || self == StatusKind::Failed
    }
}

/// The requests that move a capture session from one state to another.
#[derive(Debug, Clone, Copy, PartialEq, Eq, Structural)]
pub enum Transition {
    Reset,
    Initialize(CaptureType),
    Start,
    Done,
    Errored,
}

impl Transition {
    /// The state that the request leads to.
    pub open spec fn target(self) -> StatusKind {
        match self {
            Transition::Reset => StatusKind::NotStarted,
            Transition::Initialize(_) => StatusKind::Pending,
            Transition::Start => StatusKind::Running,
            Transition::Done => StatusKind::Done,
            Transition::Errored => StatusKind::Failed,
        }
    }

    /// The names of the states from which the request is legal, in the order
    /// in which an error lists them.
    pub open spec fn expected(self) -> Seq<Seq<char>> {
        match self {
            Transition::Reset | Transition::Initialize(_) => seq![
                StatusKind::NotStarted.name(),
                StatusKind::Done.name(),
                StatusKind::Failed.name(),
            ],
            Transition::Start => seq![StatusKind::Pending.name()],
            Transition::Done | Transition::Errored => seq![StatusKind::Running.name()],
        }
    }
}

/// The state of one capture session.
#[derive(Debug, Clone, Copy, PartialEq, Eq)]
pub enum CapturerStatus {
    NotStarted,
    Pending { capture_type: CaptureType },
    Running { capture_type: CaptureType, last_frame_at: Option<FrameTime> },
    Done,
    Failed,
}

impl CapturerStatus {
    /// The state without what it carries.
    pub open spec fn spec_kind(self) -> StatusKind {
        match self {
            CapturerStatus::NotStarted => StatusKind::NotStarted,
            CapturerStatus::Pending { .. } => StatusKind::Pending,
            CapturerStatus::Running { .. } => StatusKind::Running,
            CapturerStatus::Done => StatusKind::Done,
            CapturerStatus::Failed => StatusKind::Failed,
        }
    }

    /// The state machine: the state that a request leads to, or nothing where
    /// the request is illegal in this state.
    pub open spec fn step(self, request: Transition) -> Option<CapturerStatus> {
        match (request, self) {
            (Transition::Reset, CapturerStatus::NotStarted)
            | (Transition::Reset, CapturerStatus::Done)
            | (Transition::Reset, CapturerStatus::Failed) => Some(CapturerStatus::NotStarted),
            (Transition::Initialize(capture_type), CapturerStatus::NotStarted)
            | (Transition::Initialize(capture_type), CapturerStatus::Done)
            | (Transition::Initialize(capture_type), CapturerStatus::Failed) => Some(
                CapturerStatus::Pending { capture_type },
            ),
            (Transition::Start, CapturerStatus::Pending { capture_type }) => Some(
                CapturerStatus::Running { capture_type, last_frame_at: None },
            ),
            (Transition::Done, CapturerStatus::Running { .. }) => Some(CapturerStatus::Done),
            (Transition::Errored, CapturerStatus::Running { .. }) => Some(CapturerStatus::Failed),
            _ => None,
        }
    }

    /// What the error of an illegal request holds.
    pub open spec fn refusal(self, request: Transition) -> ErrorView {
        ErrorView::InvalidTransition {
            found: self.spec_kind().name(),
            expected: request.expected(),
            to: request.target().name(),
        }
    }

    /// What a request must do: move to the next state, or fail with the
    /// refusal and leave the state as it was.
    pub open spec fn obeys(
        self,
        request: Transition,
        after: CapturerStatus,
        result: Result<(), CapturerError>,
    ) -> bool {
        match self.step(request) {
            Some(next) => result is Ok && after == next,
            None => result is Err && after == self && result->Err_0@ == self.refusal(request),
        }
    }

    pub fn kind(&self) -> (k: StatusKind)
        ensures
            k == self.spec_kind(),
    {
        match self {
            CapturerStatus::NotStarted => StatusKind::NotStarted,
            CapturerStatus::Pending { .. } => StatusKind::Pending,
            CapturerStatus::Running { .. } => StatusKind::Running,
            CapturerStatus::Done => StatusKind::Done,
            CapturerStatus::Failed => StatusKind::Failed,
        }
    }

    /// The state's name.
    pub fn get_type(&self) -> (name: String)
        ensures
            name@ == self.spec_kind().name(),
    {
        match self {
            CapturerStatus::NotStarted => String::from_str("NotStarted"),
            CapturerStatus::Pending { .. } => String::from_str("Pending"),
            CapturerStatus::Running { .. } => String::from_str("Running"),
            CapturerStatus::Failed => String::from_str("Failed"),
            CapturerStatus::Done => String::from_str("Done"),
        }
    }

    /// The error for a request that this state does not allow.
    fn refuse(&self, request: Transition) -> (e: CapturerError)
        ensures
            e@ == self.refusal(request),
    {
        let mut expected: Vec<String> = Vec::new();
        match request {
            Transition::Reset | Transition::Initialize(_) => {
                expected.push(String::from_str("NotStarted"));
                expected.push(String::from_str("Done"));
                expected.push(String::from_str("Failed"));
            },
            Transition::Start => {
                expected.push(String::from_str("Pending"));
            },
            Transition::Done | Transition::Errored => {
                expected.push(String::from_str("Running"));
            },
        }
        let to = match request {
            Transition::Reset => String::from_str("NotStarted"),
            Transition::Initialize(_) => String::from_str("Pending"),
            Transition::Start => String::from_str("Running"),
            Transition::Done => String::from_str("Done"),
            Transition::Errored => String::from_str("Failed"),
        };
        let e = CapturerError::InvalidTransition { found: self.get_type(), expected, to };
        assert(e@->InvalidTransition_expected =~= request.expected());
        e
    }

    /// Returns a session at rest to its first state.
    pub fn reset(&mut self) -> (r: Result<(), CapturerError>)
        ensures
            old(self).obeys(Transition::Reset, *final(self), r),
    {
        match self {
            CapturerStatus::NotStarted | CapturerStatus::Done | CapturerStatus::Failed => {
                *self = CapturerStatus::NotStarted;
                Ok(())
            },
            CapturerStatus::Pending { .. } | CapturerStatus::Running { .. } => Err(
                self.refuse(Transition::Reset),
            ),
        }
    }

    /// Begins a capture of the given kind in a session at rest.
    pub fn initialize(&mut self, capture_type: CaptureType) -> (r: Result<(), CapturerError>)
        ensures
            old(self).obeys(Transition::Initialize(capture_type), *final(self), r),
    {
        match self {
            CapturerStatus::NotStarted | CapturerStatus::Done | CapturerStatus::Failed => {
                *self = CapturerStatus::Pending { capture_type };
                Ok(())
            },
            CapturerStatus::Pending { .. } | CapturerStatus::Running { .. } => Err(
                self.refuse(Transition::Initialize(capture_type)),
            ),
        }
    }

    /// Moves a pending session to running, with no frame seen yet.
    pub fn start(&mut self) -> (r: Result<(), CapturerError>)
        ensures
            old(self).obeys(Transition::Start, *final(self), r),
    {
        match *self {
            CapturerStatus::Pending { capture_type } => {
                *self = CapturerStatus::Running { capture_type, last_frame_at: None };
                Ok(())
            },
            _ => Err(self.refuse(Transition::Start)),
        }
    }

    /// Ends a running session with success.
    pub fn done(&mut self) -> (r: Result<(), CapturerError>)
        ensures
            old(self).obeys(Transition::Done, *final(self), r),
    {
        match *self {
            CapturerStatus::Running { .. } => {
                *self = CapturerStatus::Done;
                Ok(())
            },
            _ => Err(self.refuse(Transition::Done)),
        }
    }

    /// Ends a running session with failure. The cause is the caller's to
    /// report: the state keeps none.
    pub fn errored(&mut self, error: &CapturerError) -> (r: Result<(), CapturerError>)
        ensures
            old(self).obeys(Transition::Errored, *final(self), r),
    {
        match *self {
            CapturerStatus::Running { .. } => {
                *self = CapturerStatus::Failed;
                Ok(())
            },
            _ => Err(self.refuse(Transition::Errored)),
        }
    }
}

/// The state machine has exactly nine edges: a request is legal if and only
/// if it is a reset or an initialisation of a session at rest, the start of a
/// pending session, or the end, in success or failure, of a running one; and a
/// legal request leads to the state that it names.
pub proof fn lemma_transition_edges(from: CapturerStatus, request: Transition)
    ensures
        from.step(request) is Some <==> match request {
            Transition::Reset | Transition::Initialize(_) => from.spec_kind().at_rest(),
            Transition::Start => from.spec_kind() == StatusKind::Pending,
            Transition::Done | Transition::Errored => from.spec_kind() == StatusKind::Running,
        },
        from.step(request) is Some ==> from.step(request)->Some_0.spec_kind()
            == request.target(),
{
}

/// A pending session remembers the kind of capture it was begun for, and a
/// started one keeps it.
pub proof fn lemma_capture_type_kept(from: CapturerStatus, capture_type: CaptureType)
    requires
        from.spec_kind().at_rest(),
    ensures
        from.step(Transition::Initialize(capture_type)) == Some(
            (CapturerStatus::Pending { capture_type }),
        ),
        (CapturerStatus::Pending { capture_type }).step(Transition::Start) == Some(
            (CapturerStatus::Running { capture_type, last_frame_at: None }),
        ),
{
}

} // verus!
