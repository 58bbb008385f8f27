//! The buffer pool: what the compositor offers for an output, and the
//! buffers that the engine sets aside once the offers are complete.

use crate::output_info::OutputId;
use crate::types::{CapturerError, ErrorView};
use std::collections::HashMap;
use vstd::prelude::*;

verus! {

broadcast use vstd::std_specs::hash::group_hash_axioms;

/// The code of the 32-bit layout with alpha, as the shared-memory protocol
/// numbers it.
pub const SHM_ARGB8888: u32 = 0;

/// The code of the 32-bit layout with red in the lowest byte and no alpha; the
/// shared-memory protocol and the hardware-native one agree on it.
pub const FOURCC_XBGR8888: u32 = 0x3432_4258;

/// The code of the 32-bit layout with alpha, as the hardware-native protocol
/// numbers it.
pub const FOURCC_ARGB8888: u32 = 0x3432_5241;

/// The largest size that the protocol can express.
pub const PROTOCOL_MAX: u32 = 0x7fff_ffff;

/// A pixel layout: one of the two that the engine converts, or another, kept
/// by its code.
#[derive(Debug, Clone, Copy, PartialEq, Eq, Structural)]
pub enum PixelFormat {
    Argb8888,
    Xbgr8888,
    Other(u32),
}

impl PixelFormat {
    /// Whether the layout is one that the engine converts.
    pub open spec fn spec_supported(self) -> bool {
        !(self is Other)
    }

    /// The layout that a code of the shared-memory protocol stands for.
    pub open spec fn spec_from_shm_code(code: u32) -> PixelFormat {
        if code == SHM_ARGB8888 {
            PixelFormat::Argb8888
        } else if code == FOURCC_XBGR8888 {
            PixelFormat::Xbgr8888
        } else {
            PixelFormat::Other(code)
        }
    }

    /// The layout that a code of the hardware-native protocol stands for.
    pub open spec fn spec_from_fourcc(code: u32) -> PixelFormat {
        if code == FOURCC_ARGB8888 {
            PixelFormat::Argb8888
        } else if code == FOURCC_XBGR8888 {
            PixelFormat::Xbgr8888
        } else {
            PixelFormat::Other(code)
        }
    }

    /// The code by which the shared-memory protocol knows the layout.
    pub open spec fn spec_shm_code(self) -> u32 {
        match self {
            PixelFormat::Argb8888 => SHM_ARGB8888,
            PixelFormat::Xbgr8888 => FOURCC_XBGR8888,
            PixelFormat::Other(code) => code,
        }
    }

    #[verifier::when_used_as_spec(spec_shm_code)]
    pub fn shm_code(self) -> (code: u32)
        ensures
            code == self.spec_shm_code(),
    {
        match self {
            PixelFormat::Argb8888 => SHM_ARGB8888,
            PixelFormat::Xbgr8888 => FOURCC_XBGR8888,
            PixelFormat::Other(code) => code,
        }
    }

    #[verifier::when_used_as_spec(spec_supported)]
    pub fn supported(self) -> (yes: bool)
        ensures
            yes == self.spec_supported(),
    {
        match self {
            PixelFormat::Other(_) => false,
            _ => true,
        }
    }

    #[verifier::when_used_as_spec(spec_from_shm_code)]
    pub fn from_shm_code(code: u32) -> (format: PixelFormat)
        ensures
            format == PixelFormat::spec_from_shm_code(code),
    {
        if code == SHM_ARGB8888 {
            PixelFormat::Argb8888
        } else if code == FOURCC_XBGR8888 {
            PixelFormat::Xbgr8888
        } else {
            PixelFormat::Other(code)
        }
    }

    #[verifier::when_used_as_spec(spec_from_fourcc)]
    pub fn from_fourcc(code: u32) -> (format: PixelFormat)
        ensures
            format == PixelFormat::spec_from_fourcc(code),
    {
        if code == FOURCC_ARGB8888 {
            PixelFormat::Argb8888
        } else if code == FOURCC_XBGR8888 {
            PixelFormat::Xbgr8888
        } else {
            PixelFormat::Other(code)
        }
    }
}

/// The two ways in which the compositor describes a buffer.
#[derive(Debug, Clone, Copy, PartialEq, Eq, Structural)]
pub enum OfferKind {
    /// A conventional layout in shared memory.
    Shm,
    /// A hardware-native layout.
    Dmabuf,
}

/// The shape of a buffer as one offer describes it.
#[derive(Debug, Clone, Copy, PartialEq, Eq, Structural)]
pub struct BufferSpec {
    pub kind: OfferKind,
    pub width: u32,
    pub stride: u32,
    pub height: u32,
    pub format: PixelFormat,
}

impl BufferSpec {
    /// The number of bytes that a buffer of this shape takes.
    pub open spec fn byte_len(self) -> int {
        self.stride * self.height
    }

    /// Whether the layout may be finalized: a hardware-native offer only in
    /// a layout that the engine converts.
    pub open spec fn acceptable(self) -> bool {
        self.kind == OfferKind::Shm || self.format.spec_supported()
    }

    /// Whether the protocol can express the shape and the size of its buffer.
    pub open spec fn fits(self) -> bool {
        &&& self.width <= PROTOCOL_MAX
        &&& self.stride <= PROTOCOL_MAX
        &&& self.height <= PROTOCOL_MAX
        &&& self.byte_len() <= PROTOCOL_MAX
    }

    /// The size of a buffer of this shape, where the protocol can express it.
    pub fn checked_size(&self) -> (size: Option<u32>)
        ensures
            self.fits() ==> size == Some(self.byte_len() as u32),
            !self.fits() ==> size is None,
    {
        if self.width > PROTOCOL_MAX || self.stride > PROTOCOL_MAX || self.height > PROTOCOL_MAX {
            return None;
        }
        assert(self.stride * self.height <= 0x7fff_ffff * 0x7fff_ffff) by (nonlinear_arith)
            requires
                self.stride <= 0x7fff_ffff,
                self.height <= 0x7fff_ffff,
        ;
        let bytes: u64 = self.stride as u64 * self.height as u64;
        if bytes > PROTOCOL_MAX as u64 {
            None
        } else {
            Some(bytes as u32)
        }
    }
}

/// The number by which the engine and its caller name one buffer.
pub type BufferId = u64;

/// A buffer set aside for one round of a capture.
#[derive(Debug, Clone, Copy, PartialEq, Eq, Structural)]
pub struct FrameBuffer {
    pub id: BufferId,
    pub spec: BufferSpec,
    pub size: u32,
}

/// What the pool holds for one output.
#[derive(Debug, Clone, Copy, PartialEq, Eq)]
pub struct PoolEntry {
    /// The latest offer of the round that is being negotiated.
    pub offered: Option<BufferSpec>,
    /// The buffer of the latest finalized round.
    pub current: Option<FrameBuffer>,
    /// The buffer of the round before, kept while the current one is filled.
    pub previous: Option<FrameBuffer>,
}

impl PoolEntry {
    /// The entry of an output for which nothing is held.
    pub open spec fn empty() -> PoolEntry {
        PoolEntry { offered: None, current: None, previous: None }
    }

    /// Whether the entry holds the buffer with this number.
    pub open spec fn holds(self, id: BufferId) -> bool {
        (self.current is Some && self.current->Some_0.id == id) || (self.previous is Some
            && self.previous->Some_0.id == id)
    }
}

/// What a finalization hands back: the new buffer to allocate, and the
/// number of the buffer that is no longer kept, if there was one.
#[derive(Debug, Clone, Copy, PartialEq, Eq)]
pub struct Finalized {
    pub buffer: FrameBuffer,
    pub released: Option<BufferId>,
}

/// The mathematical value of a [`BufferPool`].
pub struct PoolView {
    pub entries: Map<OutputId, PoolEntry>,
    pub next_id: BufferId,
}

impl PoolView {
    /// What the pool holds for an output; the empty entry where it holds
    /// nothing.
    pub open spec fn entry(self, output: OutputId) -> PoolEntry {
        if self.entries.contains_key(output) {
            self.entries[output]
        } else {
            PoolEntry::empty()
        }
    }

    /// The pool with another entry for one output.
    pub open spec fn with_entry(self, output: OutputId, entry: PoolEntry) -> PoolView {
        PoolView { entries: self.entries.insert(output, entry), ..self }
    }

    /// The pool after an offer for an output: the latest offer replaces the
    /// one before.
    pub open spec fn offered(self, output: OutputId, spec: BufferSpec) -> PoolView {
        self.with_entry(output, PoolEntry { offered: Some(spec), ..self.entry(output) })
    }

    /// The pool after a run of offers for an output, the first made first.
    pub open spec fn offered_all(self, output: OutputId, specs: Seq<BufferSpec>) -> PoolView
        decreases specs.len(),
    {
        if specs.len() == 0 {
            self
        } else {
            self.offered_all(output, specs.drop_last()).offered(output, specs.last())
        }
    }

    /// The pool without the offer for an output.
    pub open spec fn withdrawn(self, output: OutputId) -> PoolView {
        self.with_entry(output, PoolEntry { offered: None, ..self.entry(output) })
    }

    /// The failure of a finalization for an output, if it fails: nothing was
    /// offered, the layout is not acceptable, or the size cannot be expressed
    /// or numbered.
    pub open spec fn refusal(self, output: OutputId) -> Option<ErrorView> {
        match self.entry(output).offered {
            None => Some(ErrorView::AllocationFailed),
            Some(spec) => if !spec.acceptable() {
                Some(ErrorView::UnsupportedPixelFormat)
            } else if !spec.fits() || self.next_id == u64::MAX {
                Some(ErrorView::AllocationFailed)
            } else {
                None
            },
        }
    }

    /// The buffer that a finalization for an output sets aside.
    pub open spec fn fresh(self, output: OutputId) -> FrameBuffer
        recommends
            self.refusal(output) is None,
    {
        let spec = self.entry(output).offered->Some_0;
        FrameBuffer { id: self.next_id, spec, size: spec.byte_len() as u32 }
    }

    /// The pool after a finalization for an output. A failed one withdraws
    /// the offer and keeps the buffers. A successful one sets the new buffer
    /// in place of the current one, which is kept as the previous one.
    pub open spec fn finalized(self, output: OutputId) -> PoolView {
        if self.refusal(output) is Some {
            if self.entry(output).offered is Some {
                self.withdrawn(output)
            } else {
                self
            }
        } else {
            PoolView {
                entries: self.entries.insert(
                    output,
                    PoolEntry {
                        offered: None,
                        current: Some(self.fresh(output)),
                        previous: self.entry(output).current,
                    },
                ),
                next_id: (self.next_id + 1) as u64,
            }
        }
    }

    /// The number of the buffer that a successful finalization for an output
    /// no longer keeps.
    pub open spec fn dropped(self, output: OutputId) -> Option<BufferId> {
        match self.entry(output).previous {
            Some(buffer) => Some(buffer.id),
            None => None,
        }
    }

    /// The pool's invariant: every buffer has a number below the next one to
    /// be given, and no two buffers share a number.
    pub open spec fn wf(self) -> bool {
        &&& forall|output: OutputId, id: BufferId|
            self.entries.contains_key(output) && (#[trigger] self.entries[output].holds(id)) ==> id
                < self.next_id
        &&& forall|first: OutputId, second: OutputId, id: BufferId|
            self.entries.contains_key(first) && self.entries.contains_key(second) && (
            #[trigger] self.entries[first].holds(id)) && (#[trigger] self.entries[second].holds(id))
                ==> first == second
        &&& forall|output: OutputId|
            self.entries.contains_key(output) && (#[trigger] self.entries[output]).current is Some
                && self.entries[output].previous is Some ==> self.entries[output].current->Some_0.id
                != self.entries[output].previous->Some_0.id
    }
}

/// The offers and buffers of every output.
#[derive(Debug, Clone)]
pub struct BufferPool {
    entries: HashMap<OutputId, PoolEntry>,
    next_id: BufferId,
}

impl View for BufferPool {
    type V = PoolView;

    closed spec fn view(&self) -> PoolView {
        PoolView { entries: self.entries@, next_id: self.next_id }
    }
}

impl BufferPool {
    /// A pool that holds nothing.
    pub fn new() -> (pool: BufferPool)
        ensures
            pool@.entries == Map::<OutputId, PoolEntry>::empty(),
            pool@.next_id == 0,
            pool@.wf(),
    {
        BufferPool { entries: HashMap::new(), next_id: 0 }
    }

    /// What the pool holds for an output.
    pub fn entry(&self, output: OutputId) -> (entry: PoolEntry)
        ensures
            entry == self@.entry(output),
    {
        match self.entries.get(&output) {
            Some(entry) => *entry,
            None => PoolEntry { offered: None, current: None, previous: None },
        }
    }

    /// Records an offer for an output. Of several offers in one round the
    /// last one stays.
    pub fn offer(&mut self, output: OutputId, spec: BufferSpec)
        requires
            old(self)@.wf(),
        ensures
            final(self)@ == old(self)@.offered(output, spec),
            final(self)@.wf(),
    {
        let entry = self.entry(output);
        self.entries.insert(output, PoolEntry { offered: Some(spec), ..entry });
        proof {
            lemma_offer_keeps_wf(old(self)@, output, spec);
        }
    }

    /// Withdraws the offer for an output, as when a round is given up.
    pub fn withdraw(&mut self, output: OutputId)
        requires
            old(self)@.wf(),
        ensures
            final(self)@ == old(self)@.withdrawn(output),
            final(self)@.wf(),
    {
        let entry = self.entry(output);
        self.entries.insert(output, PoolEntry { offered: None, ..entry });
        proof {
            lemma_withdraw_keeps_wf(old(self)@, output);
        }
    }

    /// Closes the negotiation for an output: sets a buffer aside for the
    /// latest offer, sized stride by height, and keeps the buffer of the
    /// round before. Fails where nothing was offered, where a
    /// hardware-native offer has a layout that the engine does not convert,
    /// and where the size cannot be expressed; the offer is then withdrawn.
    pub fn finalize(&mut self, output: OutputId) -> (r: Result<Finalized, CapturerError>)
        requires
            old(self)@.wf(),
        ensures
            final(self)@ == old(self)@.finalized(output),
            final(self)@.wf(),
            match old(self)@.refusal(output) {
                Some(failure) => r is Err && r->Err_0@ == failure,
                None => r == Ok::<Finalized, CapturerError>(
                    (Finalized {
                        buffer: old(self)@.fresh(output),
                        released: old(self)@.dropped(output),
                    }),
                ),
            },
    {
        let entry = self.entry(output);
        let Some(spec) = entry.offered else {
            return Err(CapturerError::AllocationFailed);
        };
        if spec.kind == OfferKind::Dmabuf && !spec.format.supported() {
            self.withdraw(output);
            return Err(CapturerError::UnsupportedPixelFormat);
        }
        let Some(size) = spec.checked_size() else {
            self.withdraw(output);
            return Err(CapturerError::AllocationFailed);
        };
        if self.next_id == u64::MAX {
            self.withdraw(output);
            return Err(CapturerError::AllocationFailed);
        }
        let buffer = FrameBuffer { id: self.next_id, spec, size };
        let released = match entry.previous {
            Some(old_buffer) => Some(old_buffer.id),
            None => None,
        };
        self.entries.insert(
            output,
            PoolEntry { offered: None, current: Some(buffer), previous: entry.current },
        );
        self.next_id = self.next_id + 1;
        proof {
            lemma_finalized_wf(old(self)@, output);
        }
        Ok(Finalized { buffer, released })
    }

    /// Takes the compositor's offers for an output, in their order, and
    /// closes the negotiation: the buffer is set aside for the last of them.
    /// Without a new offer the one that the pool already holds is taken, and
    /// the negotiation fails where it holds none.
    pub fn negotiate_and_allocate(&mut self, output: OutputId, candidates: &Vec<BufferSpec>) -> (r:
        Result<Finalized, CapturerError>)
        requires
            old(self)@.wf(),
        ensures
            final(self)@ == old(self)@.offered_all(output, candidates@).finalized(output),
            final(self)@.wf(),
            match old(self)@.offered_all(output, candidates@).refusal(output) {
                Some(failure) => r is Err && r->Err_0@ == failure,
                None => r == Ok::<Finalized, CapturerError>(
                    (Finalized {
                        buffer: old(self)@.offered_all(output, candidates@).fresh(output),
                        released: old(self)@.offered_all(output, candidates@).dropped(output),
                    }),
                ),
            },
    {
        let mut i: usize = 0;
        while i < candidates.len()
            invariant
                i <= candidates@.len(),
                self@.wf(),
                self@ == old(self)@.offered_all(output, candidates@.take(i as int)),
            decreases candidates@.len() - i,
        {
            assert(candidates@.take(i + 1).drop_last() =~= candidates@.take(i as int));
            self.offer(output, candidates[i]);
            i += 1;
        }
        assert(candidates@.take(i as int) =~= candidates@);
        self.finalize(output)
    }

    /// Gives up every buffer of an output, as when the output is gone. The
    /// result names the buffers that were held, the current one first.
    pub fn remove(&mut self, output: OutputId) -> (released: (Option<BufferId>, Option<BufferId>))
        requires
            old(self)@.wf(),
        ensures
            final(self)@ == (PoolView {
                entries: old(self)@.entries.remove(output),
                ..old(self)@
            }),
            final(self)@.wf(),
            released.0 == match old(self)@.entry(output).current {
                Some(buffer) => Some(buffer.id),
                None => None,
            },
            released.1 == old(self)@.dropped(output),
    {
        let entry = self.entry(output);
        self.entries.remove(&output);
        let current = match entry.current {
            Some(buffer) => Some(buffer.id),
            None => None,
        };
        let previous = match entry.previous {
            Some(buffer) => Some(buffer.id),
            None => None,
        };
        (current, previous)
    }
}

/// A finalization keeps the pool's invariant.
pub proof fn lemma_finalized_wf(before: PoolView, output: OutputId)
    requires
        before.wf(),
    ensures
        before.finalized(output).wf(),
{
    let after = before.finalized(output);
    if before.refusal(output) is Some {
        if before.entry(output).offered is Some {
            lemma_withdraw_keeps_wf(before, output);
        }
    } else {
        let entry = before.entry(output);
        let fresh = before.fresh(output);
        assert forall|other: OutputId, id: BufferId|
            after.entries.contains_key(other) && (#[trigger] after.entries[other].holds(
                id,
            )) implies id < after.next_id by {
            if other != output {
                assert(before.entries[other].holds(id));
            } else if id != fresh.id {
                assert(before.entries[output].holds(id));
            }
        }
        assert forall|first: OutputId, second: OutputId, id: BufferId|
            after.entries.contains_key(first) && after.entries.contains_key(second) && (
            #[trigger] after.entries[first].holds(id)) && (#[trigger] after.entries[second].holds(
                id,
            )) implies first == second by {
            if first != output {
                assert(before.entries[first].holds(id));
            }
            if second != output {
                assert(before.entries[second].holds(id));
            }
            if first == output && second != output && id != fresh.id {
                assert(before.entries[output].holds(id));
            }
            if second == output && first != output && id != fresh.id {
                assert(before.entries[output].holds(id));
            }
        }
        assert forall|other: OutputId|
            after.entries.contains_key(other) && (#[trigger] after.entries[other]).current is Some
                && after.entries[other].previous is Some implies after.entries[other].current->Some_0.id
            != after.entries[other].previous->Some_0.id by {
            if other == output {
                assert(before.entries[output].holds(entry.current->Some_0.id));
            }
        }
    }
}

/// An offer keeps the pool's invariant.
pub proof fn lemma_offer_keeps_wf(before: PoolView, output: OutputId, spec: BufferSpec)
    requires
        before.wf(),
    ensures
        before.offered(output, spec).wf(),
{
    lemma_same_buffers_keep_wf(before, before.offered(output, spec), output);
}

/// The withdrawal of an offer keeps the pool's invariant.
pub proof fn lemma_withdraw_keeps_wf(before: PoolView, output: OutputId)
    requires
        before.wf(),
    ensures
        before.withdrawn(output).wf(),
{
    lemma_same_buffers_keep_wf(before, before.withdrawn(output), output);
}

/// A change to one entry that leaves its buffers as they were keeps the
/// pool's invariant.
proof fn lemma_same_buffers_keep_wf(before: PoolView, after: PoolView, output: OutputId)
    requires
        before.wf(),
        after.next_id == before.next_id,
        after.entries.contains_key(output),
        after.entries == before.entries.insert(output, after.entries[output]),
        after.entries[output].current == before.entry(output).current,
        after.entries[output].previous == before.entry(output).previous,
    ensures
        after.wf(),
{
    assert forall|other: OutputId, id: BufferId|
        after.entries.contains_key(other) && (#[trigger] after.entries[other].holds(
            id,
        )) implies id < after.next_id by {
        if other != output {
            assert(before.entries[other].holds(id));
        } else {
            assert(before.entries.contains_key(output) && before.entries[output].holds(id));
        }
    }
    assert forall|first: OutputId, second: OutputId, id: BufferId|
        after.entries.contains_key(first) && after.entries.contains_key(second) && (
        #[trigger] after.entries[first].holds(id)) && (#[trigger] after.entries[second].holds(
            id,
        )) implies first == second by {
        if first == output {
            assert(before.entries.contains_key(output) && before.entries[output].holds(id));
        } else {
            assert(before.entries[first].holds(id));
        }
        if second == output {
            assert(before.entries.contains_key(output) && before.entries[output].holds(id));
        } else {
            assert(before.entries[second].holds(id));
        }
    }
    assert forall|other: OutputId|
        after.entries.contains_key(other) && (#[trigger] after.entries[other]).current is Some
            && after.entries[other].previous is Some implies after.entries[other].current->Some_0.id
        != after.entries[other].previous->Some_0.id by {
        if other == output {
            assert(before.entries.contains_key(output));
            assert(before.entries[output].current is Some);
        }
    }
}

/// A layout read from a code of the shared-memory protocol is known to the
/// protocol by that code.
pub proof fn lemma_shm_code_round_trip(code: u32)
    ensures
        PixelFormat::spec_from_shm_code(code).spec_shm_code() == code,
{
}

/// Of several offers for one output the last one is the one that a
/// finalization sets a buffer aside for.
pub proof fn lemma_last_offer_wins(
    pool: PoolView,
    output: OutputId,
    first: BufferSpec,
    last: BufferSpec,
)
    ensures
        pool.offered(output, first).offered(output, last) == pool.offered(output, last),
        pool.offered(output, last).refusal(output) is None ==> pool.offered(output, last).fresh(
            output,
        ).spec == last,
{
    assert(pool.offered(output, first).offered(output, last).entries =~= pool.offered(
        output,
        last,
    ).entries);
}

/// Of any number of offers for one output only the last one counts: the pool
/// after all of them is the pool after the last alone.
pub proof fn lemma_only_last_offer_counts(pool: PoolView, output: OutputId, specs: Seq<BufferSpec>)
    requires
        specs.len() > 0,
    ensures
        pool.offered_all(output, specs) == pool.offered(output, specs.last()),
        pool.offered_all(output, specs).entry(output).offered == Some(specs.last()),
    decreases specs.len(),
{
    let front = specs.drop_last();
    if front.len() > 0 {
        lemma_only_last_offer_counts(pool, output, front);
        lemma_last_offer_wins(pool, output, front.last(), specs.last());
    } else {
        assert(pool.offered_all(output, front) == pool);
    }
}

/// A finalization keeps the buffer of the round before: what was the current
/// buffer is the previous one afterwards, and the offer is used up.
pub proof fn lemma_finalize_keeps_previous(pool: PoolView, output: OutputId)
    requires
        pool.refusal(output) is None,
    ensures
        pool.finalized(output).entry(output).previous == pool.entry(output).current,
        pool.finalized(output).entry(output).current == Some(pool.fresh(output)),
        pool.finalized(output).entry(output).offered is None,
        pool.fresh(output).size == pool.entry(output).offered->Some_0.stride * pool.entry(
            output,
        ).offered->Some_0.height,
{
}

} // verus!
