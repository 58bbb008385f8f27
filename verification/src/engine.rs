//! The capture engine: one session, its rounds of negotiation with the
//! compositor, and what has to be done in answer to each event.
//!
//! The engine performs nothing itself. Each of its functions takes an event,
//! moves the session on and returns the actions that its caller is to carry
//! out, in order.

use crate::buffer_pool::{
    lemma_finalized_wf, lemma_offer_keeps_wf, lemma_withdraw_keeps_wf, BufferId, BufferPool, BufferSpec, FrameBuffer, OfferKind, PixelFormat,
    PoolEntry, PoolView,
};
use crate::output_info::{first_match, resolve, OutputId, WlOutputMapping};
use crate::pixel::{encode_frame, spec_encode_frame};
use crate::types::{
    frame_rate_millihertz, spec_frame_rate, CaptureType, CapturerError, CapturerStatus, ErrorView,
    FrameTime, OutputIdentifier, Transition,
};
use vstd::prelude::*;

verus! {

/// The number by which the engine and its caller name the capture object of
/// one round.
pub type FrameId = u64;

/// One round of negotiation: the output it captures, its capture object, and
/// whether the offers for it are complete.
#[derive(Debug, Clone, Copy, PartialEq, Eq, Structural)]
pub struct Round {
    pub output: OutputId,
    pub frame: FrameId,
    pub closed: bool,
}

/// What the compositor says of a capture object.
#[derive(Debug, Clone, Copy, PartialEq, Eq, Structural)]
pub enum FrameEvent {
    /// A buffer in shared memory is offered.
    Buffer { format: u32, width: u32, height: u32, stride: u32 },
    /// A hardware-native buffer is offered.
    LinuxDmabuf { format: u32, width: u32, height: u32 },
    /// The offers are complete.
    BufferDone,
    /// The copy succeeded at the given moment.
    Ready { tv_sec_hi: u32, tv_sec_lo: u32, tv_nsec: u32 },
    /// The copy could not be completed.
    Failed,
    /// Anything else, which the engine does not act on.
    Other,
}

/// What the engine asks its caller to do.
#[derive(Debug, Clone, PartialEq, Eq)]
pub enum Action {
    /// Ask the compositor to capture the output, under the given number.
    RequestCapture { output: OutputId, frame: FrameId },
    /// Allocate the memory of a buffer.
    Allocate { buffer: FrameBuffer },
    /// Give up the memory of a buffer.
    Release { id: BufferId },
    /// Ask the compositor to copy the output into a buffer.
    Copy { frame: FrameId, id: BufferId },
    /// Give up a capture object.
    DestroyFrame { frame: FrameId },
    /// Persist a still image.
    WriteImage { png: Vec<u8> },
    /// Report a frame of a stream: its moment and, from the second frame on,
    /// the rate in frames per thousand seconds.
    ReportFrame { at: FrameTime, rate: Option<u64> },
    /// Report a failure that ends the capture.
    Surface { error: CapturerError },
}

/// The mathematical value of an [`Action`].
pub enum ActionView {
    RequestCapture { output: OutputId, frame: FrameId },
    Allocate { buffer: FrameBuffer },
    Release { id: BufferId },
    Copy { frame: FrameId, id: BufferId },
    DestroyFrame { frame: FrameId },
    WriteImage { png: Seq<u8> },
    ReportFrame { at: FrameTime, rate: Option<u64> },
    Surface { error: ErrorView },
}

impl View for Action {
    type V = ActionView;

    open spec fn view(&self) -> ActionView {
        match *self {
            Action::RequestCapture { output, frame } => ActionView::RequestCapture {
                output,
                frame,
            },
            Action::Allocate { buffer } => ActionView::Allocate { buffer },
            Action::Release { id } => ActionView::Release { id },
            Action::Copy { frame, id } => ActionView::Copy { frame, id },
            Action::DestroyFrame { frame } => ActionView::DestroyFrame { frame },
            Action::WriteImage { png } => ActionView::WriteImage { png: png@ },
            Action::ReportFrame { at, rate } => ActionView::ReportFrame { at, rate },
            Action::Surface { error } => ActionView::Surface { error: error@ },
        }
    }
}

/// The values of a list of actions.
pub open spec fn action_views(actions: Seq<Action>) -> Seq<ActionView> {
    Seq::new(actions.len(), |i: int| actions[i]@)
}

/// The number of the capture object after the given one.
pub open spec fn frame_after(frame: FrameId) -> FrameId {
    if frame == u64::MAX {
        0
    } else {
        (frame + 1) as u64
    }
}

/// The length of a row of a hardware-native buffer, four bytes to the pixel;
/// the largest number where that cannot be expressed.
pub open spec fn packed_stride(width: u32) -> u32 {
    if width <= 0x3fff_ffff {
        (4 * width) as u32
    } else {
        u32::MAX
    }
}

/// The rate that a stream reports for a frame: nothing for the first.
pub open spec fn reported_rate(previous: Option<FrameTime>, current: FrameTime) -> Option<u64> {
    match previous {
        Some(earlier) => match spec_frame_rate(earlier, current) {
            Some(rate) => Some(rate as u64),
            None => None,
        },
        None => None,
    }
}

/// The kind of capture that a session is for; a session at rest is for none,
/// and counts as one for a still image.
pub open spec fn capture_type_of(status: CapturerStatus) -> CaptureType {
    match status {
        CapturerStatus::Pending { capture_type } => capture_type,
        CapturerStatus::Running { capture_type, .. } => capture_type,
        _ => CaptureType::Frame,
    }
}

/// The actions that give up the buffer that a finalization no longer keeps.
pub open spec fn release_of(dropped: Option<BufferId>) -> Seq<ActionView> {
    match dropped {
        Some(id) => seq![ActionView::Release { id }],
        None => Seq::empty(),
    }
}

/// The mathematical value of the engine.
pub struct EngineView {
    pub status: CapturerStatus,
    pub pool: PoolView,
    pub round: Option<Round>,
    pub stop_requested: bool,
    pub last_frame_at: Option<FrameTime>,
    pub failures: u32,
    pub retry_limit: u32,
    pub next_frame: FrameId,
}

impl EngineView {
    /// The engine's invariant: the pool is in order; a session at rest has no
    /// round; a pending session has a round whose offers are still open; a
    /// running one has a round whose buffer is set aside.
    pub open spec fn wf(self) -> bool {
        &&& self.pool.wf()
        &&& self.negotiates_one()
        &&& match self.round {
            None => self.status.spec_kind().at_rest(),
            Some(round) => if round.closed {
                self.status is Running && self.pool.entry(round.output).current is Some
            } else {
                self.status is Pending
            },
        }
    }

    /// Whether at most one negotiation is in progress: the pool holds an
    /// offer for no output but the one of the round whose offers are open.
    pub open spec fn negotiates_one(self) -> bool {
        forall|output: OutputId|
            self.pool.entries.contains_key(output) && (#[trigger] self.pool.entries[output]).offered
                is Some ==> self.round == Some(
                Round { output, frame: self.round->Some_0.frame, closed: false },
            )
    }

    /// Whether the engine follows the capture object with this number.
    pub open spec fn tracks(self, frame: FrameId) -> bool {
        self.round is Some && self.round->Some_0.frame == frame
    }

    /// The engine after a round has begun for a session at rest, and the
    /// request that begins it.
    pub open spec fn begun(self, capture_type: CaptureType, output: OutputId) -> (
        EngineView,
        Seq<ActionView>,
    ) {
        (
            EngineView {
                status: CapturerStatus::Pending { capture_type },
                round: Some(Round { output, frame: self.next_frame, closed: false }),
                next_frame: frame_after(self.next_frame),
                ..self
            },
            seq![ActionView::RequestCapture { output, frame: self.next_frame }],
        )
    }

    /// The engine after a new capture was asked for. A session at rest
    /// forgets an earlier stop, the failures and the last frame, and begins a
    /// round; any other session refuses and stays as it is.
    pub open spec fn polled(self, capture_type: CaptureType, output: OutputId) -> (
        EngineView,
        Seq<ActionView>,
    ) {
        if self.status.spec_kind().at_rest() {
            (EngineView { stop_requested: false, failures: 0, last_frame_at: None, ..self }).begun(
                capture_type,
                output,
            )
        } else {
            (self, Seq::empty())
        }
    }

    /// Whether a stream goes on after a round: not after a stop, and after a
    /// failure only while the failures in a row are below the limit.
    pub open spec fn goes_on(self, capture_type: CaptureType, failed: bool) -> bool {
        capture_type == CaptureType::Stream && !self.stop_requested && (!failed || self.failures
            < self.retry_limit)
    }

    /// The engine at rest after a round has ended, before any new round.
    pub open spec fn rested(self, round: Round, failed: bool) -> EngineView {
        EngineView {
            status: if failed {
                CapturerStatus::Failed
            } else {
                CapturerStatus::Done
            },
            round: None,
            pool: if failed {
                self.pool.withdrawn(round.output)
            } else {
                self.pool
            },
            failures: if !failed {
                0
            } else if self.failures == u32::MAX {
                u32::MAX
            } else {
                (self.failures + 1) as u32
            },
            ..self
        }
    }

    /// The end of a round, after the actions that came before it. The
    /// session ends in success or failure and the capture object is given up.
    /// A stream that goes on begins its next round at once; otherwise a
    /// failure is reported.
    pub open spec fn settled(
        self,
        round: Round,
        capture_type: CaptureType,
        failure: Option<ErrorView>,
        lead: Seq<ActionView>,
    ) -> (EngineView, Seq<ActionView>) {
        let rested = self.rested(round, failure is Some);
        let actions = lead.push(ActionView::DestroyFrame { frame: round.frame });
        if self.goes_on(capture_type, failure is Some) {
            let (next, request) = rested.begun(CaptureType::Stream, round.output);
            (next, actions + request)
        } else if failure is Some {
            (rested, actions.push(ActionView::Surface { error: failure->Some_0 }))
        } else {
            (rested, actions)
        }
    }

    /// The engine after the offers of its round are complete. Where the pool
    /// sets a buffer aside, the session runs, and the buffer is allocated and
    /// the copy asked for. Where it refuses, the round ends in failure.
    pub open spec fn closed(self, round: Round) -> (EngineView, Seq<ActionView>) {
        let finalized = EngineView { pool: self.pool.finalized(round.output), ..self };
        match self.pool.refusal(round.output) {
            Some(failure) => finalized.settled(
                round,
                capture_type_of(self.status),
                Some(failure),
                Seq::empty(),
            ),
            None => (
                EngineView {
                    status: CapturerStatus::Running {
                        capture_type: capture_type_of(self.status),
                        last_frame_at: None,
                    },
                    round: Some(Round { closed: true, ..round }),
                    ..finalized
                },
                release_of(self.pool.dropped(round.output)) + seq![
                    ActionView::Allocate { buffer: self.pool.fresh(round.output) },
                    ActionView::Copy { frame: round.frame, id: self.pool.fresh(round.output).id },
                ],
            ),
        }
    }

    /// The engine after the copy of its round succeeded. A still image is
    /// encoded from the buffer's contents and written, or the round fails
    /// with what the encoding refused. A stream reports the frame and
    /// remembers its moment.
    pub open spec fn completed(self, round: Round, at: FrameTime, contents: Seq<u8>) -> (
        EngineView,
        Seq<ActionView>,
    ) {
        let buffer = self.pool.entry(round.output).current->Some_0;
        match capture_type_of(self.status) {
            CaptureType::Frame => match spec_encode_frame(contents, buffer.spec) {
                Ok(png) => self.settled(
                    round,
                    CaptureType::Frame,
                    None,
                    seq![ActionView::WriteImage { png }],
                ),
                Err(failure) => self.settled(
                    round,
                    CaptureType::Frame,
                    Some(failure),
                    Seq::empty(),
                ),
            },
            CaptureType::Stream => (EngineView { last_frame_at: Some(at), ..self }).settled(
                round,
                CaptureType::Stream,
                None,
                seq![
                    ActionView::ReportFrame { at, rate: reported_rate(self.last_frame_at, at) },
                ],
            ),
        }
    }

    /// The engine after an event of a capture object, and the actions that
    /// answer it. An event of an object that the engine does not follow
    /// changes nothing; so does an offer after the offers were complete, a
    /// second end of the offers, and a success before the copy was asked for.
    pub open spec fn after_event(self, frame: FrameId, event: FrameEvent, contents: Seq<u8>) -> (
        EngineView,
        Seq<ActionView>,
    ) {
        if !self.tracks(frame) {
            (self, Seq::empty())
        } else {
            let round = self.round->Some_0;
            match event {
                FrameEvent::Buffer { format, width, height, stride } => if round.closed {
                    (self, Seq::empty())
                } else {
                    (
                        EngineView {
                            pool: self.pool.offered(
                                round.output,
                                BufferSpec {
                                    kind: OfferKind::Shm,
                                    width,
                                    stride,
                                    height,
                                    format: PixelFormat::spec_from_shm_code(format),
                                },
                            ),
                            ..self
                        },
                        Seq::empty(),
                    )
                },
                FrameEvent::LinuxDmabuf { format, width, height } => if round.closed {
                    (self, Seq::empty())
                } else {
                    (
                        EngineView {
                            pool: self.pool.offered(
                                round.output,
                                BufferSpec {
                                    kind: OfferKind::Dmabuf,
                                    width,
                                    stride: packed_stride(width),
                                    height,
                                    format: PixelFormat::spec_from_fourcc(format),
                                },
                            ),
                            ..self
                        },
                        Seq::empty(),
                    )
                },
                FrameEvent::BufferDone => if round.closed {
                    (self, Seq::empty())
                } else {
                    self.closed(round)
                },
                FrameEvent::Ready { tv_sec_hi, tv_sec_lo, tv_nsec } => if !round.closed {
                    (self, Seq::empty())
                } else {
                    self.completed(
                        round,
                        FrameTime {
                            secs: (tv_sec_hi * 0x1_0000_0000 + tv_sec_lo) as u64,
                            nanos: tv_nsec,
                        },
                        contents,
                    )
                },
                FrameEvent::Failed => self.settled(
                    round,
                    capture_type_of(self.status),
                    Some(ErrorView::CopyFailed),
                    Seq::empty(),
                ),
                FrameEvent::Other => (self, Seq::empty()),
            }
        }
    }

    /// The engine after its caller could not carry a round on, as when the
    /// memory of a buffer cannot be had: the round ends in the given failure.
    /// A round of a capture object that the engine does not follow is none
    /// of its business.
    pub open spec fn aborted(self, frame: FrameId, failure: ErrorView) -> (
        EngineView,
        Seq<ActionView>,
    ) {
        if !self.tracks(frame) {
            (self, Seq::empty())
        } else {
            self.settled(
                self.round->Some_0,
                capture_type_of(self.status),
                Some(failure),
                Seq::empty(),
            )
        }
    }

    /// The engine after a stop. The round in progress, if there is one, is
    /// given up and the session is done; no round follows.
    pub open spec fn stopped(self) -> (EngineView, Seq<ActionView>) {
        match self.round {
            None => (EngineView { stop_requested: true, ..self }, Seq::empty()),
            Some(round) => (
                EngineView {
                    stop_requested: true,
                    status: CapturerStatus::Done,
                    round: None,
                    pool: self.pool.withdrawn(round.output),
                    ..self
                },
                seq![ActionView::DestroyFrame { frame: round.frame }],
            ),
        }
    }
}

/// The state of the capture engine.
#[derive(Debug, Clone)]
pub struct CapturerState {
    /// The session.
    pub status: CapturerStatus,
    /// The offers and buffers of every output.
    pub pool: BufferPool,
    /// The round in progress.
    pub round: Option<Round>,
    /// Whether a stop was asked for since the capture began.
    pub stop_requested: bool,
    /// The moment of the stream's last frame.
    pub last_frame_at: Option<FrameTime>,
    /// The failures in a row.
    pub failures: u32,
    /// How many failures in a row a stream may retry after.
    pub retry_limit: u32,
    /// The number of the next capture object.
    pub next_frame: FrameId,
}

impl View for CapturerState {
    type V = EngineView;

    open spec fn view(&self) -> EngineView {
        EngineView {
            status: self.status,
            pool: self.pool@,
            round: self.round,
            stop_requested: self.stop_requested,
            last_frame_at: self.last_frame_at,
            failures: self.failures,
            retry_limit: self.retry_limit,
            next_frame: self.next_frame,
        }
    }
}

/// Adds one action to a list.
fn push_action(actions: &mut Vec<Action>, action: Action)
    ensures
        action_views(final(actions)@) == action_views(old(actions)@).push(action@),
{
    actions.push(action);
    assert(action_views(actions@) =~= action_views(old(actions)@).push(action@));
}

/// A list without actions.
fn no_actions() -> (actions: Vec<Action>)
    ensures
        action_views(actions@) == Seq::<ActionView>::empty(),
{
    let actions: Vec<Action> = Vec::new();
    assert(action_views(actions@) =~= Seq::<ActionView>::empty());
    actions
}

impl CapturerState {
    /// An engine at rest that holds nothing. A stream retries after a
    /// failure while fewer than `retry_limit` failures came in a row.
    pub fn new(retry_limit: u32) -> (state: CapturerState)
        ensures
            state@.wf(),
            state@.status == CapturerStatus::NotStarted,
            state@.round is None,
            !state@.stop_requested,
            state@.last_frame_at is None,
            state@.failures == 0,
            state@.retry_limit == retry_limit,
            state@.next_frame == 0,
            state@.pool.entries == Map::<OutputId, PoolEntry>::empty(),
            state@.pool.next_id == 0,
    {
        CapturerState {
            status: CapturerStatus::NotStarted,
            pool: BufferPool::new(),
            round: None,
            stop_requested: false,
            last_frame_at: None,
            failures: 0,
            retry_limit,
            next_frame: 0,
        }
    }

    /// Whether the session and the round agree, which is the engine's
    /// invariant. The engine's own functions keep it; a caller that writes to
    /// the engine's fields can check it here.
    pub fn in_order(&self) -> (ok: bool)
        requires
            self.pool@.wf(),
            self@.negotiates_one(),
        ensures
            ok == self@.wf(),
    {
        match self.round {
            None => match self.status {
                CapturerStatus::NotStarted | CapturerStatus::Done | CapturerStatus::Failed => true,
                _ => false,
            },
            Some(round) => if round.closed {
                match self.status {
                    CapturerStatus::Running { .. } => self.pool.entry(round.output).current.is_some(),
                    _ => false,
                }
            } else {
                match self.status {
                    CapturerStatus::Pending { .. } => true,
                    _ => false,
                }
            },
        }
    }

    /// The kind of capture that the session is for.
    fn capture_type(&self) -> (capture_type: CaptureType)
        ensures
            capture_type == capture_type_of(self.status),
    {
        match self.status {
            CapturerStatus::Pending { capture_type } => capture_type,
            CapturerStatus::Running { capture_type, .. } => capture_type,
            _ => CaptureType::Frame,
        }
    }

    /// Begins a round. A session that is not at rest refuses, and nothing
    /// changes.
    fn begin_round(
        &mut self,
        capture_type: CaptureType,
        output: OutputId,
        actions: &mut Vec<Action>,
    ) -> (r: Result<(), CapturerError>)
        ensures
            old(self).status.spec_kind().at_rest() ==> r is Ok && final(self)@ == old(
                self,
            )@.begun(capture_type, output).0 && action_views(final(actions)@) == action_views(
                old(actions)@,
            ) + old(self)@.begun(capture_type, output).1,
            !old(self).status.spec_kind().at_rest() ==> r is Err && *final(self) == *old(self)
                && final(actions)@ == old(actions)@ && r->Err_0@ == old(self).status.refusal(
                Transition::Initialize(capture_type),
            ),
    {
        if let Err(e) = self.status.initialize(capture_type) {
            return Err(e);
        }
        let frame = self.next_frame;
        self.round = Some(Round { output, frame, closed: false });
        self.next_frame = if frame == u64::MAX {
            0
        } else {
            frame + 1
        };
        push_action(actions, Action::RequestCapture { output, frame });
        assert(action_views(actions@) =~= action_views(old(actions)@) + old(self)@.begun(
            capture_type,
            output,
        ).1);
        Ok(())
    }

    /// Asks for a new capture of an output. A session at rest begins its
    /// first round; any other refuses, and the engine stays as it is.
    pub fn poll_capture(&mut self, capture_type: CaptureType, output: OutputId) -> (r: Result<
        Vec<Action>,
        CapturerError,
    >)
        requires
            old(self)@.wf(),
        ensures
            final(self)@.wf(),
            final(self)@ == old(self)@.polled(capture_type, output).0,
            match r {
                Ok(actions) => old(self)@.status.spec_kind().at_rest() && action_views(actions@)
                    == old(self)@.polled(capture_type, output).1,
                Err(e) => !old(self)@.status.spec_kind().at_rest() && e@ == old(
                    self,
                )@.status.refusal(Transition::Initialize(capture_type)),
            },
    {
        let mut actions = no_actions();
        if let Err(e) = self.begin_round(capture_type, output, &mut actions) {
            return Err(e);
        }
        self.stop_requested = false;
        self.failures = 0;
        self.last_frame_at = None;
        Ok(actions)
    }

    /// Captures the output that an identifier names: picks the first record
    /// that satisfies it and asks for a new capture of that output. Fails,
    /// and changes nothing, where no record satisfies the identifier or the
    /// session is not at rest.
    pub fn capture(
        &mut self,
        records: &Vec<WlOutputMapping>,
        identifier: &OutputIdentifier,
        capture_type: CaptureType,
    ) -> (r: Result<Vec<Action>, CapturerError>)
        requires
            old(self)@.wf(),
        ensures
            final(self)@.wf(),
            match r {
                Ok(actions) => exists|at: int|
                    first_match(records@, identifier@, at) && final(self)@ == old(self)@.polled(
                        capture_type,
                        (#[trigger] records@[at]).wl_output,
                    ).0 && action_views(actions@) == old(self)@.polled(
                        capture_type,
                        records@[at].wl_output,
                    ).1 && old(self)@.status.spec_kind().at_rest(),
                Err(e) => final(self)@ == old(self)@ && if forall|at: int|
                    0 <= at < records@.len() ==> !(#[trigger] records@[at]).metadata@.satisfies(
                        identifier@,
                    ) {
                    e@ == ErrorView::OutputNotFound
                } else {
                    !old(self)@.status.spec_kind().at_rest() && e@ == old(self)@.status.refusal(
                        Transition::Initialize(capture_type),
                    )
                },
            },
    {
        let output = match resolve(records, identifier) {
            Ok(output) => output,
            Err(e) => {
                return Err(e);
            },
        };
        self.poll_capture(capture_type, output)
    }

    /// Ends the round in progress, in success or with the given failure.
    fn settle(
        &mut self,
        round: Round,
        capture_type: CaptureType,
        failure: Option<CapturerError>,
        actions: &mut Vec<Action>,
    )
        requires
            old(self).pool@.wf(),
            old(self).status is Pending || old(self).status is Running,
            failure is None ==> old(self).status is Running,
            forall|output: OutputId|
                old(self).pool@.entries.contains_key(output) && (#[trigger] old(
                    self,
                ).pool@.entries[output]).offered is Some ==> output == round.output,
            failure is None ==> old(self).pool@.entry(round.output).offered is None,
        ensures
            final(self)@.wf(),
            final(self)@ == old(self)@.settled(
                round,
                capture_type,
                match failure {
                    Some(e) => Some(e@),
                    None => None,
                },
                action_views(old(actions)@),
            ).0,
            action_views(final(actions)@) == old(self)@.settled(
                round,
                capture_type,
                match failure {
                    Some(e) => Some(e@),
                    None => None,
                },
                action_views(old(actions)@),
            ).1,
    {
        let goes_on = match capture_type {
            CaptureType::Stream => !self.stop_requested && (failure.is_none() || self.failures
                < self.retry_limit),
            CaptureType::Frame => false,
        };
        if let CapturerStatus::Pending { .. } = self.status {
            let _ = self.status.start();
        }
        match &failure {
            Some(e) => {
                let _ = self.status.errored(e);
                self.pool.withdraw(round.output);
                if self.failures < u32::MAX {
                    self.failures = self.failures + 1;
                }
            },
            None => {
                let _ = self.status.done();
                self.failures = 0;
            },
        }
        self.round = None;
        push_action(actions, Action::DestroyFrame { frame: round.frame });
        if goes_on {
            let _ = self.begin_round(CaptureType::Stream, round.output, actions);
        } else {
            match failure {
                Some(error) => {
                    push_action(actions, Action::Surface { error });
                },
                None => {},
            }
        }
    }

    /// Closes the negotiation of the round in progress.
    fn close_round(&mut self, round: Round, actions: &mut Vec<Action>)
        requires
            old(self)@.wf(),
            old(self).round == Some(round),
            !round.closed,
            action_views(old(actions)@) == Seq::<ActionView>::empty(),
        ensures
            final(self)@.wf(),
            final(self)@ == old(self)@.closed(round).0,
            action_views(final(actions)@) == old(self)@.closed(round).1,
    {
        let capture_type = self.capture_type();
        match self.pool.finalize(round.output) {
            Err(e) => {
                self.settle(round, capture_type, Some(e), actions);
            },
            Ok(finalized) => {
                let _ = self.status.start();
                self.round = Some(Round { output: round.output, frame: round.frame, closed: true });
                match finalized.released {
                    Some(id) => {
                        push_action(actions, Action::Release { id });
                    },
                    None => {},
                }
                push_action(actions, Action::Allocate { buffer: finalized.buffer });
                push_action(actions, Action::Copy { frame: round.frame, id: finalized.buffer.id });
                assert(action_views(actions@) =~= old(self)@.closed(round).1);
            },
        }
    }

    /// Takes in the success of the copy of the round in progress.
    fn complete_round(
        &mut self,
        round: Round,
        at: FrameTime,
        contents: &[u8],
        actions: &mut Vec<Action>,
    )
        requires
            old(self)@.wf(),
            old(self).round == Some(round),
            round.closed,
            action_views(old(actions)@) == Seq::<ActionView>::empty(),
        ensures
            final(self)@.wf(),
            final(self)@ == old(self)@.completed(round, at, contents@).0,
            action_views(final(actions)@) == old(self)@.completed(round, at, contents@).1,
    {
        let entry = self.pool.entry(round.output);
        let Some(buffer) = entry.current else {
            return ;
        };
        match self.capture_type() {
            CaptureType::Frame => {
                match encode_frame(contents, &buffer.spec) {
                    Ok(png) => {
                        push_action(actions, Action::WriteImage { png });
                        assert(action_views(actions@) =~= seq![ActionView::WriteImage { png: png@ }]);
                        self.settle(round, CaptureType::Frame, None, actions);
                    },
                    Err(e) => {
                        self.settle(round, CaptureType::Frame, Some(e), actions);
                    },
                }
            },
            CaptureType::Stream => {
                let rate = match self.last_frame_at {
                    Some(earlier) => frame_rate_millihertz(earlier, at),
                    None => None,
                };
                self.last_frame_at = Some(at);
                push_action(actions, Action::ReportFrame { at, rate });
                assert(action_views(actions@) =~= seq![
                    ActionView::ReportFrame { at, rate: reported_rate(old(self).last_frame_at, at) },
                ]);
                self.settle(round, CaptureType::Stream, None, actions);
            },
        }
    }

    /// Takes in one event of a capture object and returns the actions that
    /// answer it. `contents` is what the buffer of the round holds; it is
    /// read only when the copy of a still image has succeeded.
    pub fn event(&mut self, frame: FrameId, event: FrameEvent, contents: &[u8]) -> (actions: Vec<
        Action,
    >)
        requires
            old(self)@.wf(),
        ensures
            final(self)@.wf(),
            final(self)@ == old(self)@.after_event(frame, event, contents@).0,
            action_views(actions@) == old(self)@.after_event(frame, event, contents@).1,
    {
        let mut actions = no_actions();
        let round = match self.round {
            Some(round) => round,
            None => {
                return actions;
            },
        };
        if round.frame != frame {
            return actions;
        }
        match event {
            FrameEvent::Buffer { format, width, height, stride } => {
                if !round.closed {
                    self.pool.offer(
                        round.output,
                        BufferSpec {
                            kind: OfferKind::Shm,
                            width,
                            stride,
                            height,
                            format: PixelFormat::from_shm_code(format),
                        },
                    );
                }
            },
            FrameEvent::LinuxDmabuf { format, width, height } => {
                if !round.closed {
                    let stride: u32 = if width <= 0x3fff_ffff {
                        4 * width
                    } else {
                        u32::MAX
                    };
                    self.pool.offer(
                        round.output,
                        BufferSpec {
                            kind: OfferKind::Dmabuf,
                            width,
                            stride,
                            height,
                            format: PixelFormat::from_fourcc(format),
                        },
                    );
                }
            },
            FrameEvent::BufferDone => {
                if !round.closed {
                    self.close_round(round, &mut actions);
                }
            },
            FrameEvent::Ready { tv_sec_hi, tv_sec_lo, tv_nsec } => {
                if round.closed {
                    let at = FrameTime::from_wire(tv_sec_hi, tv_sec_lo, tv_nsec);
                    self.complete_round(round, at, contents, &mut actions);
                }
            },
            FrameEvent::Failed => {
                let capture_type = self.capture_type();
                self.settle(round, capture_type, Some(CapturerError::CopyFailed), &mut actions);
            },
            FrameEvent::Other => {},
        }
        actions
    }

    /// Ends the round of a capture object in a failure that its caller met
    /// while carrying out an action.
    pub fn abort(&mut self, frame: FrameId, error: CapturerError) -> (actions: Vec<Action>)
        requires
            old(self)@.wf(),
        ensures
            final(self)@.wf(),
            final(self)@ == old(self)@.aborted(frame, error@).0,
            action_views(actions@) == old(self)@.aborted(frame, error@).1,
    {
        let mut actions = no_actions();
        let round = match self.round {
            Some(round) => round,
            None => {
                return actions;
            },
        };
        if round.frame != frame {
            return actions;
        }
        let capture_type = self.capture_type();
        self.settle(round, capture_type, Some(error), &mut actions);
        actions
    }

    /// Stops the capture. The round in progress, if there is one, is given
    /// up at once and the session is done; a stream begins no further round.
    pub fn stop_capture(&mut self) -> (actions: Vec<Action>)
        requires
            old(self)@.wf(),
        ensures
            final(self)@.wf(),
            final(self)@ == old(self)@.stopped().0,
            action_views(actions@) == old(self)@.stopped().1,
    {
        let mut actions = no_actions();
        self.stop_requested = true;
        match self.round {
            None => {},
            Some(round) => {
                if let CapturerStatus::Pending { .. } = self.status {
                    let _ = self.status.start();
                }
                let _ = self.status.done();
                self.round = None;
                self.pool.withdraw(round.output);
                push_action(&mut actions, Action::DestroyFrame { frame: round.frame });
                assert(action_views(actions@) =~= old(self)@.stopped().1);
            },
        }
        actions
    }
}

/// The shape that an offer of a buffer in shared memory describes.
pub open spec fn shm_offer(event: FrameEvent) -> BufferSpec
    recommends
        event is Buffer,
{
    BufferSpec {
        kind: OfferKind::Shm,
        width: event->Buffer_width,
        stride: event->Buffer_stride,
        height: event->Buffer_height,
        format: PixelFormat::spec_from_shm_code(event->Buffer_format),
    }
}

/// The moment that a success carries.
pub open spec fn ready_at(event: FrameEvent) -> FrameTime
    recommends
        event is Ready,
{
    FrameTime {
        secs: (event->Ready_tv_sec_hi * 0x1_0000_0000 + event->Ready_tv_sec_lo) as u64,
        nanos: event->Ready_tv_nsec,
    }
}

/// What the compositor says in a round that succeeds: one offer, and the
/// success of the copy. The end of the offers lies between them.
pub struct RoundScript {
    pub offer: FrameEvent,
    pub ready: FrameEvent,
}

impl RoundScript {
    /// Whether the round can succeed: the offer is one of a buffer in shared
    /// memory whose size the protocol can express.
    pub open spec fn sound(self) -> bool {
        self.offer is Buffer && shm_offer(self.offer).fits() && self.ready is Ready
    }
}

/// The number of frames that a list of actions reports.
pub open spec fn reports(actions: Seq<ActionView>) -> nat
    decreases actions.len(),
{
    if actions.len() == 0 {
        0
    } else {
        reports(actions.drop_last()) + if actions.last() is ReportFrame {
            1nat
        } else {
            0nat
        }
    }
}

impl EngineView {
    /// Whether the engine is in a round of a stream of the given output
    /// whose offers are open, with no stop asked for.
    pub open spec fn streaming(self, output: OutputId) -> bool {
        &&& self.status == (CapturerStatus::Pending { capture_type: CaptureType::Stream })
        &&& self.round is Some
        &&& self.round->Some_0.output == output
        &&& !self.round->Some_0.closed
        &&& !self.stop_requested
    }

    /// The engine after the events of one round, all of the capture object
    /// that it follows, and the actions that answer them.
    pub open spec fn after_round(self, script: RoundScript, contents: Seq<u8>) -> (
        EngineView,
        Seq<ActionView>,
    ) {
        let frame = self.round->Some_0.frame;
        let (offered, first) = self.after_event(frame, script.offer, contents);
        let (copying, second) = offered.after_event(frame, FrameEvent::BufferDone, contents);
        let (next, third) = copying.after_event(frame, script.ready, contents);
        (next, first + second + third)
    }

    /// The engine after a number of rounds, one after the other.
    pub open spec fn after_rounds(self, scripts: Seq<RoundScript>, contents: Seq<u8>) -> (
        EngineView,
        Seq<ActionView>,
    )
        decreases scripts.len(),
    {
        if scripts.len() == 0 {
            (self, Seq::empty())
        } else {
            let (before, earlier) = self.after_rounds(scripts.drop_last(), contents);
            let (after, latest) = before.after_round(scripts.last(), contents);
            (after, earlier + latest)
        }
    }
}

/// The frames that two lists of actions report are those of the one and
/// those of the other.
pub proof fn lemma_reports_add(first: Seq<ActionView>, second: Seq<ActionView>)
    ensures
        reports(first + second) == reports(first) + reports(second),
    decreases second.len(),
{
    if second.len() == 0 {
        assert(first + second =~= first);
    } else {
        lemma_reports_add(first, second.drop_last());
        assert((first + second).drop_last() =~= first + second.drop_last());
        assert((first + second).last() == second.last());
    }
}

/// An event of a capture object that the engine does not follow changes
/// nothing and asks for nothing.
pub proof fn lemma_superseded_ignored(
    state: EngineView,
    frame: FrameId,
    event: FrameEvent,
    contents: Seq<u8>,
)
    requires
        !state.tracks(frame),
    ensures
        state.after_event(frame, event, contents) == (state, Seq::<ActionView>::empty()),
{
}

/// An offer that arrives after the offers were complete changes nothing.
pub proof fn lemma_late_offer_ignored(state: EngineView, event: FrameEvent, contents: Seq<u8>)
    requires
        state.round is Some,
        state.round->Some_0.closed,
        event is Buffer || event is LinuxDmabuf || event is BufferDone,
    ensures
        state.after_event(state.round->Some_0.frame, event, contents) == (
            state,
            Seq::<ActionView>::empty(),
        ),
{
}

/// Of two offers in one round the last is the one that the buffer is set
/// aside for: it has the last offer's width, height and layout, and its size
/// is the last offer's stride times its height.
pub proof fn lemma_last_offer_is_set_aside(
    state: EngineView,
    first: FrameEvent,
    last: FrameEvent,
    contents: Seq<u8>,
)
    requires
        state.round is Some,
        !state.round->Some_0.closed,
        first is Buffer,
        last is Buffer,
        shm_offer(last).fits(),
        state.pool.next_id < u64::MAX,
    ensures
        ({
            let round = state.round->Some_0;
            let offered = state.after_event(round.frame, first, contents).0.after_event(
                round.frame,
                last,
                contents,
            ).0;
            let (copying, actions) = offered.after_event(
                round.frame,
                FrameEvent::BufferDone,
                contents,
            );
            let buffer = FrameBuffer {
                id: state.pool.next_id,
                spec: shm_offer(last),
                size: (last->Buffer_stride * last->Buffer_height) as u32,
            };
            &&& copying.pool.entry(round.output).current == Some(buffer)
            &&& copying.pool.entry(round.output).previous == state.pool.entry(round.output).current
            &&& copying.round == Some(Round { closed: true, ..round })
            &&& actions == release_of(state.pool.dropped(round.output)) + seq![
                ActionView::Allocate { buffer },
                ActionView::Copy { frame: round.frame, id: buffer.id },
            ]
        }),
{
}

/// The end of a round leaves the engine in order, where the pool is in order
/// and holds no offer but for the round's output, and none at all after a
/// success.
proof fn lemma_settled_in_order(
    state: EngineView,
    round: Round,
    capture_type: CaptureType,
    failure: Option<ErrorView>,
    lead: Seq<ActionView>,
)
    requires
        state.pool.wf(),
        forall|output: OutputId|
            state.pool.entries.contains_key(output) && (#[trigger] state.pool.entries[output]).offered
                is Some ==> output == round.output && failure is Some,
    ensures
        state.settled(round, capture_type, failure, lead).0.wf(),
{
    lemma_withdraw_keeps_wf(state.pool, round.output);
}

/// Every event leaves the engine in order: the session and the round agree,
/// the pool holds no two buffers under one number, and at most one
/// negotiation is in progress.
pub proof fn lemma_event_keeps_order(
    state: EngineView,
    frame: FrameId,
    event: FrameEvent,
    contents: Seq<u8>,
)
    requires
        state.wf(),
    ensures
        state.after_event(frame, event, contents).0.wf(),
{
    if state.tracks(frame) {
        let round = state.round->Some_0;
        match event {
            FrameEvent::Buffer { .. } => {
                if !round.closed {
                    lemma_offer_keeps_wf(state.pool, round.output, shm_offer(event));
                }
            },
            FrameEvent::LinuxDmabuf { format, width, height } => {
                if !round.closed {
                    lemma_offer_keeps_wf(
                        state.pool,
                        round.output,
                        BufferSpec {
                            kind: OfferKind::Dmabuf,
                            width,
                            stride: packed_stride(width),
                            height,
                            format: PixelFormat::spec_from_fourcc(format),
                        },
                    );
                }
            },
            FrameEvent::BufferDone => {
                if !round.closed {
                    lemma_finalized_wf(state.pool, round.output);
                    if state.pool.refusal(round.output) is Some {
                        lemma_settled_in_order(
                            EngineView { pool: state.pool.finalized(round.output), ..state },
                            round,
                            capture_type_of(state.status),
                            state.pool.refusal(round.output),
                            Seq::empty(),
                        );
                    }
                }
            },
            FrameEvent::Ready { tv_sec_hi, tv_sec_lo, tv_nsec } => {
                if round.closed {
                    let at = ready_at(event);
                    let buffer = state.pool.entry(round.output).current->Some_0;
                    match capture_type_of(state.status) {
                        CaptureType::Frame => {
                            match spec_encode_frame(contents, buffer.spec) {
                                Ok(png) => {
                                    lemma_settled_in_order(
                                        state,
                                        round,
                                        CaptureType::Frame,
                                        None,
                                        seq![ActionView::WriteImage { png }],
                                    );
                                },
                                Err(failure) => {
                                    lemma_settled_in_order(
                                        state,
                                        round,
                                        CaptureType::Frame,
                                        Some(failure),
                                        Seq::empty(),
                                    );
                                },
                            }
                        },
                        CaptureType::Stream => {
                            lemma_settled_in_order(
                                EngineView { last_frame_at: Some(at), ..state },
                                round,
                                CaptureType::Stream,
                                None,
                                seq![
                                    ActionView::ReportFrame {
                                        at,
                                        rate: reported_rate(state.last_frame_at, at),
                                    },
                                ],
                            );
                        },
                    }
                }
            },
            FrameEvent::Failed => {
                lemma_settled_in_order(
                    state,
                    round,
                    capture_type_of(state.status),
                    Some(ErrorView::CopyFailed),
                    Seq::empty(),
                );
            },
            FrameEvent::Other => {},
        }
    }
}

/// The buffer that a copy is asked into is a new one: it is held by the pool
/// while the round is in progress, and it is neither the buffer that is given
/// up at the same time nor the one that is kept from the round before.
pub proof fn lemma_copy_target_is_kept(state: EngineView, contents: Seq<u8>)
    requires
        state.wf(),
        state.round is Some,
        !state.round->Some_0.closed,
        state.pool.refusal(state.round->Some_0.output) is None,
    ensures
        ({
            let round = state.round->Some_0;
            let target = state.pool.fresh(round.output);
            let (after, actions) = state.after_event(
                round.frame,
                FrameEvent::BufferDone,
                contents,
            );
            &&& after.wf()
            &&& after.pool.entry(round.output).current == Some(target)
            &&& actions.last() == (ActionView::Copy { frame: round.frame, id: target.id })
            &&& state.pool.dropped(round.output) != Some(target.id)
            &&& after.pool.entry(round.output).previous is Some ==> after.pool.entry(
                round.output,
            ).previous->Some_0.id != target.id
        }),
{
    let round = state.round->Some_0;
    let entry = state.pool.entry(round.output);
    if entry.previous is Some {
        assert(state.pool.entries[round.output].holds(entry.previous->Some_0.id));
    }
    if entry.current is Some {
        assert(state.pool.entries[round.output].holds(entry.current->Some_0.id));
    }
    lemma_finalized_wf(state.pool, round.output);
}

/// One round of a stream that succeeds reports one frame, remembers its
/// moment, and leaves the engine in the next round.
pub proof fn lemma_stream_round(
    state: EngineView,
    output: OutputId,
    script: RoundScript,
    contents: Seq<u8>,
)
    requires
        state.streaming(output),
        script.sound(),
        state.pool.next_id < u64::MAX,
    ensures
        state.after_round(script, contents).0.streaming(output),
        state.after_round(script, contents).0.pool.next_id == state.pool.next_id + 1,
        state.after_round(script, contents).0.last_frame_at == Some(ready_at(script.ready)),
        state.after_round(script, contents).0.failures == 0,
        state.after_round(script, contents).0.round->Some_0.frame == state.next_frame,
        state.after_round(script, contents).0.next_frame == frame_after(state.next_frame),
        reports(state.after_round(script, contents).1) == 1,
{
    let round = state.round->Some_0;
    let (offered, first) = state.after_event(round.frame, script.offer, contents);
    let (copying, second) = offered.after_event(round.frame, FrameEvent::BufferDone, contents);
    let (next, third) = copying.after_event(round.frame, script.ready, contents);
    assert(first =~= Seq::<ActionView>::empty());
    assert(offered.pool.refusal(output) is None);
    let closed_round = Round { closed: true, ..round };
    assert(copying.round == Some(closed_round));
    assert(third =~= seq![
        ActionView::ReportFrame {
            at: ready_at(script.ready),
            rate: reported_rate(state.last_frame_at, ready_at(script.ready)),
        },
        ActionView::DestroyFrame { frame: round.frame },
        ActionView::RequestCapture { output, frame: state.next_frame },
    ]);
    assert(reports(third) == 1) by {
        reveal_with_fuel(reports, 4);
    }
    assert(reports(second) == 0) by {
        reveal_with_fuel(reports, 4);
        if state.pool.dropped(output) is Some {
            assert(second =~= seq![
                ActionView::Release { id: state.pool.dropped(output)->Some_0 },
                ActionView::Allocate { buffer: offered.pool.fresh(output) },
                ActionView::Copy { frame: round.frame, id: offered.pool.fresh(output).id },
            ]);
        } else {
            assert(second =~= seq![
                ActionView::Allocate { buffer: offered.pool.fresh(output) },
                ActionView::Copy { frame: round.frame, id: offered.pool.fresh(output).id },
            ]);
        }
    }
    lemma_reports_add(first, second);
    lemma_reports_add(first + second, third);
}

/// A stream reports one frame for each round that succeeds: after any
/// number of such rounds in a row the engine has reported as many frames, has
/// set aside as many buffers, and is in its next round.
pub proof fn lemma_stream_rounds(
    state: EngineView,
    output: OutputId,
    scripts: Seq<RoundScript>,
    contents: Seq<u8>,
)
    requires
        state.streaming(output),
        forall|i: int| 0 <= i < scripts.len() ==> (#[trigger] scripts[i]).sound(),
        state.pool.next_id + scripts.len() <= u64::MAX,
    ensures
        state.after_rounds(scripts, contents).0.streaming(output),
        state.after_rounds(scripts, contents).0.pool.next_id == state.pool.next_id + scripts.len(),
        reports(state.after_rounds(scripts, contents).1) == scripts.len(),
        scripts.len() > 0 ==> state.after_rounds(scripts, contents).0.last_frame_at == Some(
            ready_at(scripts.last().ready),
        ),
    decreases scripts.len(),
{
    if scripts.len() > 0 {
        let front = scripts.drop_last();
        assert forall|i: int| 0 <= i < front.len() implies (#[trigger] front[i]).sound() by {
            assert(front[i] == scripts[i]);
        }
        lemma_stream_rounds(state, output, front, contents);
        let (before, earlier) = state.after_rounds(front, contents);
        assert(scripts[scripts.len() - 1].sound());
        lemma_stream_round(before, output, scripts.last(), contents);
        lemma_reports_add(earlier, before.after_round(scripts.last(), contents).1);
    } else {
        assert(reports(Seq::<ActionView>::empty()) == 0);
    }
}

/// A stop ends the session at once: with a round in progress the session is
/// done and the capture object is given up; no round is left, and none
/// follows.
pub proof fn lemma_stop_ends(state: EngineView)
    requires
        state.round is Some,
    ensures
        state.stopped().0.status == CapturerStatus::Done,
        state.stopped().0.round is None,
        state.stopped().0.stop_requested,
        state.stopped().1 == seq![ActionView::DestroyFrame { frame: state.round->Some_0.frame }],
{
}

/// A second stop changes nothing and asks for nothing, and after a stop
/// every event of a capture object is ignored.
pub proof fn lemma_stop_once(
    state: EngineView,
    frame: FrameId,
    event: FrameEvent,
    contents: Seq<u8>,
)
    ensures
        state.stopped().0.stopped() == (state.stopped().0, Seq::<ActionView>::empty()),
        state.stopped().0.after_event(frame, event, contents) == (
            state.stopped().0,
            Seq::<ActionView>::empty(),
        ),
{
}

/// A round that fails ends a capture of a still image with the failure
/// reported, and lets a stream begin its next round while the failures in a
/// row are below the limit.
pub proof fn lemma_failure_policy(state: EngineView, contents: Seq<u8>)
    requires
        state.round is Some,
        state.status is Pending || state.status is Running,
    ensures
        ({
            let round = state.round->Some_0;
            let (after, actions) = state.after_event(round.frame, FrameEvent::Failed, contents);
            if state.goes_on(capture_type_of(state.status), true) {
                &&& after.streaming(round.output)
                &&& after.failures == state.failures + 1
                &&& actions == seq![
                    ActionView::DestroyFrame { frame: round.frame },
                    ActionView::RequestCapture { output: round.output, frame: state.next_frame },
                ]
            } else {
                &&& after.status == CapturerStatus::Failed
                &&& after.round is None
                &&& actions == seq![
                    ActionView::DestroyFrame { frame: round.frame },
                    ActionView::Surface { error: ErrorView::CopyFailed },
                ]
            }
        }),
{
    let round = state.round->Some_0;
    let (after, actions) = state.after_event(round.frame, FrameEvent::Failed, contents);
    if state.goes_on(capture_type_of(state.status), true) {
        assert(actions =~= seq![
            ActionView::DestroyFrame { frame: round.frame },
            ActionView::RequestCapture { output: round.output, frame: state.next_frame },
        ]);
    } else {
        assert(actions =~= seq![
            ActionView::DestroyFrame { frame: round.frame },
            ActionView::Surface { error: ErrorView::CopyFailed },
        ]);
    }
}

} // verus!
