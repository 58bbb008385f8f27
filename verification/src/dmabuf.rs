//! The export path, in which the compositor hands out descriptors of its own
//! memory instead of filling a buffer: what the engine keeps of a round until
//! the compositor closes or cancels it, and the steps of the worker that
//! reads the descriptors afterwards.

use crate::types::FrameTime;
use vstd::prelude::*;

verus! {

/// What the compositor says of the frame that it is about to export.
#[derive(Debug, Clone, Copy, PartialEq, Eq, Structural)]
pub struct ExportFrame {
    pub width: u32,
    pub height: u32,
    pub format: u32,
    pub num_objects: u32,
}

/// One plane of an exported frame: the descriptor of its memory and where
/// the plane lies in it.
#[derive(Debug, Clone, Copy, PartialEq, Eq, Structural)]
pub struct ExportObject {
    pub index: u32,
    pub fd: i32,
    pub size: u32,
    pub offset: u32,
    pub stride: u32,
    pub plane_index: u32,
}

/// What the compositor says of a round of export.
#[derive(Debug, Clone, Copy, PartialEq, Eq, Structural)]
pub enum ExportEvent {
    Frame(ExportFrame),
    Object(ExportObject),
    Ready { tv_sec_hi: u32, tv_sec_lo: u32, tv_nsec: u32 },
    Cancel,
}

/// What a round of export has delivered.
#[derive(Debug, Clone, PartialEq, Eq)]
pub struct ExportBatch {
    pub frames: Vec<ExportFrame>,
    pub objects: Vec<ExportObject>,
}

/// The mathematical value of an [`ExportBatch`].
pub struct BatchView {
    pub frames: Seq<ExportFrame>,
    pub objects: Seq<ExportObject>,
}

impl View for ExportBatch {
    type V = BatchView;

    open spec fn view(&self) -> BatchView {
        BatchView { frames: self.frames@, objects: self.objects@ }
    }
}

impl BatchView {
    /// A batch that holds nothing.
    pub open spec fn empty() -> BatchView {
        BatchView { frames: Seq::empty(), objects: Seq::empty() }
    }
}

/// What the engine asks its caller to do after an event of a round of export.
#[derive(Debug, Clone, PartialEq, Eq)]
pub enum ExportAction {
    /// Nothing: the event was kept.
    Keep,
    /// Close the descriptors of the batch; the round was cancelled.
    Discard(ExportBatch),
    /// Start the worker on the batch, which is the worker's from now on.
    Handoff { batch: ExportBatch, at: FrameTime },
}

/// The mathematical value of an [`ExportAction`].
pub enum ExportActionView {
    Keep,
    Discard(BatchView),
    Handoff { batch: BatchView, at: FrameTime },
}

impl View for ExportAction {
    type V = ExportActionView;

    open spec fn view(&self) -> ExportActionView {
        match *self {
            ExportAction::Keep => ExportActionView::Keep,
            ExportAction::Discard(batch) => ExportActionView::Discard(batch@),
            ExportAction::Handoff { batch, at } => ExportActionView::Handoff { batch: batch@, at },
        }
    }
}

impl BatchView {
    /// The batch that the engine keeps after an event: one more frame or
    /// object, or nothing once the round is closed or cancelled.
    pub open spec fn after(self, event: ExportEvent) -> BatchView {
        match event {
            ExportEvent::Frame(frame) => BatchView { frames: self.frames.push(frame), ..self },
            ExportEvent::Object(object) => BatchView {
                objects: self.objects.push(object),
                ..self
            },
            ExportEvent::Ready { .. } | ExportEvent::Cancel => BatchView::empty(),
        }
    }

    /// What the engine asks for after an event: to discard what it kept when
    /// the round is cancelled, to hand it to the worker when the round is
    /// closed.
    pub open spec fn answer(self, event: ExportEvent) -> ExportActionView {
        match event {
            ExportEvent::Frame(_) | ExportEvent::Object(_) => ExportActionView::Keep,
            ExportEvent::Cancel => ExportActionView::Discard(self),
            ExportEvent::Ready { tv_sec_hi, tv_sec_lo, tv_nsec } => ExportActionView::Handoff {
                batch: self,
                at: FrameTime {
                    secs: (tv_sec_hi * 0x1_0000_0000 + tv_sec_lo) as u64,
                    nanos: tv_nsec,
                },
            },
        }
    }

    /// The batch that the engine keeps after a run of events.
    pub open spec fn after_all(self, events: Seq<ExportEvent>) -> BatchView
        decreases events.len(),
    {
        if events.len() == 0 {
            self
        } else {
            self.after_all(events.drop_last()).after(events.last())
        }
    }

    /// What the engine asks for after each event of a run.
    pub open spec fn answers(self, events: Seq<ExportEvent>) -> Seq<ExportActionView>
        decreases events.len(),
    {
        if events.len() == 0 {
            Seq::empty()
        } else {
            self.answers(events.drop_last()).push(
                self.after_all(events.drop_last()).answer(events.last()),
            )
        }
    }
}

/// The engine's side of the export path: what the round in progress has
/// delivered.
#[derive(Debug, Clone, PartialEq, Eq)]
pub struct ExportState {
    pub pending: ExportBatch,
}

impl View for ExportState {
    type V = BatchView;

    open spec fn view(&self) -> BatchView {
        self.pending@
    }
}

impl ExportState {
    /// An export path that has received nothing.
    pub fn new() -> (state: ExportState)
        ensures
            state@ == BatchView::empty(),
    {
        ExportState { pending: ExportBatch { frames: Vec::new(), objects: Vec::new() } }
    }

    /// Takes what the round has delivered, and leaves nothing behind.
    fn take(&mut self) -> (batch: ExportBatch)
        ensures
            batch@ == old(self)@,
            final(self)@ == BatchView::empty(),
    {
        let mut batch = ExportBatch { frames: Vec::new(), objects: Vec::new() };
        core::mem::swap(&mut self.pending, &mut batch);
        batch
    }

    /// Takes in one event of a round of export. Frames and objects are kept.
    /// A cancellation discards what was kept. The end of the round hands it
    /// to the worker, and the engine keeps none of it.
    pub fn event(&mut self, event: ExportEvent) -> (action: ExportAction)
        ensures
            final(self)@ == old(self)@.after(event),
            action@ == old(self)@.answer(event),
    {
        match event {
            ExportEvent::Frame(frame) => {
                self.pending.frames.push(frame);
                ExportAction::Keep
            },
            ExportEvent::Object(object) => {
                self.pending.objects.push(object);
                ExportAction::Keep
            },
            ExportEvent::Cancel => ExportAction::Discard(self.take()),
            ExportEvent::Ready { tv_sec_hi, tv_sec_lo, tv_nsec } => {
                let at = FrameTime::from_wire(tv_sec_hi, tv_sec_lo, tv_nsec);
                ExportAction::Handoff { batch: self.take(), at }
            },
        }
    }
}

/// A cancellation leaves nothing of the round behind, whatever came before
/// it, and a round in which no end has arrived has started no worker.
pub proof fn lemma_cancel_discards(start: BatchView, events: Seq<ExportEvent>)
    requires
        forall|i: int| 0 <= i < events.len() ==> !((#[trigger] events[i]) is Ready),
    ensures
        start.after_all(events).after(ExportEvent::Cancel) == BatchView::empty(),
        start.answers(events.push(ExportEvent::Cancel)).len() == events.len() + 1,
        forall|i: int|
            0 <= i <= events.len() ==> !((#[trigger] start.answers(
                events.push(ExportEvent::Cancel),
            )[i]) is Handoff),
        start.answers(events.push(ExportEvent::Cancel)).last() == ExportActionView::Discard(
            start.after_all(events),
        ),
{
    let whole = events.push(ExportEvent::Cancel);
    assert(whole.drop_last() =~= events);
    lemma_no_end_no_worker(start, events);
    assert forall|i: int| 0 <= i <= events.len() implies !((#[trigger] start.answers(whole)[i])
        is Handoff) by {
        if i < events.len() {
            assert(start.answers(whole)[i] == start.answers(events)[i]);
        }
    }
}

/// A run of events without the end of a round asks for no worker.
pub proof fn lemma_no_end_no_worker(start: BatchView, events: Seq<ExportEvent>)
    requires
        forall|i: int| 0 <= i < events.len() ==> !((#[trigger] events[i]) is Ready),
    ensures
        start.answers(events).len() == events.len(),
        forall|i: int|
            0 <= i < events.len() ==> !((#[trigger] start.answers(events)[i]) is Handoff),
    decreases events.len(),
{
    if events.len() > 0 {
        let front = events.drop_last();
        assert forall|i: int| 0 <= i < front.len() implies !((#[trigger] front[i]) is Ready) by {
            assert(front[i] == events[i]);
        }
        lemma_no_end_no_worker(start, front);
        assert(!(events[events.len() - 1] is Ready));
    }
}

/// The end of a round hands over exactly the frames and objects that arrived
/// since the round before, in their order, and the engine keeps none.
pub proof fn lemma_handoff_is_whole(
    frames: Seq<ExportFrame>,
    objects: Seq<ExportObject>,
    end: ExportEvent,
)
    requires
        end is Ready,
    ensures
        (BatchView { frames, objects }).answer(end) is Handoff,
        (BatchView { frames, objects }).answer(end)->Handoff_batch == (BatchView {
            frames,
            objects,
        }),
        (BatchView { frames, objects }).after(end) == BatchView::empty(),
{
}

/// What the worker learned from its last step.
#[derive(Debug, Clone, Copy, PartialEq, Eq, Structural)]
pub enum ReadOutcome {
    /// Nothing yet: the worker has just been started.
    Started,
    /// The last read returned this many bytes; none at the end of a stream.
    Read(usize),
}

/// What the worker does next.
#[derive(Debug, Clone, Copy, PartialEq, Eq, Structural)]
pub enum WorkerStep {
    /// Read up to `len` bytes from the descriptor into the sink.
    Read { fd: i32, len: usize },
    /// End: the descriptors are exhausted or the worker was cancelled.
    Stop,
}

/// The worker that reads the descriptors of one batch, one after the other,
/// in chunks of a fixed size.
#[derive(Debug, Clone, PartialEq, Eq)]
pub struct ExportWorker {
    pub objects: Vec<ExportObject>,
    pub current: usize,
    pub chunk: usize,
}

/// The mathematical value of an [`ExportWorker`].
pub struct WorkerView {
    pub objects: Seq<ExportObject>,
    pub current: int,
    pub chunk: usize,
}

impl View for ExportWorker {
    type V = WorkerView;

    open spec fn view(&self) -> WorkerView {
        WorkerView { objects: self.objects@, current: self.current as int, chunk: self.chunk }
    }
}

impl WorkerView {
    /// The worker's invariant: the descriptor in turn is one of the batch, or
    /// the batch is exhausted.
    pub open spec fn wf(self) -> bool {
        0 <= self.current <= self.objects.len()
    }

    /// The descriptor in turn after the outcome of the last step: the next
    /// one where the stream of the current one has ended.
    pub open spec fn turn(self, last: ReadOutcome) -> int {
        if last == ReadOutcome::Read(0) && self.current < self.objects.len() {
            self.current + 1
        } else {
            self.current
        }
    }

    /// The worker's next step: it stops when cancelled or when no descriptor
    /// is left, and reads a chunk from the descriptor in turn otherwise.
    pub open spec fn step(self, last: ReadOutcome, cancelled: bool) -> WorkerStep {
        if cancelled || self.turn(last) >= self.objects.len() {
            WorkerStep::Stop
        } else {
            WorkerStep::Read { fd: self.objects[self.turn(last)].fd, len: self.chunk }
        }
    }
}

impl ExportWorker {
    /// A worker for a batch that was handed over, reading `chunk` bytes at a
    /// time.
    pub fn new(batch: ExportBatch, chunk: usize) -> (worker: ExportWorker)
        ensures
            worker@.wf(),
            worker@.objects == batch@.objects,
            worker@.current == 0,
            worker@.chunk == chunk,
    {
        ExportWorker { objects: batch.objects, current: 0, chunk }
    }

    /// Decides the worker's next step from the outcome of the last one and
    /// from whether a cancellation has arrived in between. A cancelled worker
    /// stops without moving on.
    pub fn next(&mut self, last: ReadOutcome, cancelled: bool) -> (step: WorkerStep)
        requires
            old(self)@.wf(),
        ensures
            final(self)@.wf(),
            step == old(self)@.step(last, cancelled),
            final(self)@.objects == old(self)@.objects,
            final(self)@.chunk == old(self)@.chunk,
            final(self)@.current == if cancelled {
                old(self)@.current
            } else {
                old(self)@.turn(last)
            },
    {
        if cancelled {
            return WorkerStep::Stop;
        }
        let ended = match last {
            ReadOutcome::Read(count) => count == 0,
            ReadOutcome::Started => false,
        };
        if ended && self.current < self.objects.len() {
            self.current = self.current + 1;
        }
        if self.current >= self.objects.len() {
            WorkerStep::Stop
        } else {
            WorkerStep::Read { fd: self.objects[self.current].fd, len: self.chunk }
        }
    }
}

/// A cancelled worker stops, whatever it has read.
pub proof fn lemma_cancelled_worker_stops(worker: WorkerView, last: ReadOutcome)
    ensures
        worker.step(last, true) == WorkerStep::Stop,
{
}

/// A worker that is not cancelled stops only when every descriptor is
/// exhausted, and reads from no descriptor but those of its batch.
pub proof fn lemma_worker_reads_its_batch(worker: WorkerView, last: ReadOutcome)
    requires
        worker.wf(),
    ensures
        worker.step(last, false) is Stop <==> worker.turn(last) == worker.objects.len(),
        worker.step(last, false) is Read ==> exists|i: int|
            0 <= i < worker.objects.len() && (#[trigger] worker.objects[i]).fd == worker.step(
                last,
                false,
            )->Read_fd,
{
    if worker.step(last, false) is Read {
        assert(worker.objects[worker.turn(last)].fd == worker.step(last, false)->Read_fd);
    }
}

} // verus!
