use wl_scrcpy::buffer_pool::{
    BufferPool, BufferSpec, Finalized, FrameBuffer, OfferKind, PixelFormat, PoolEntry,
    FOURCC_ARGB8888, FOURCC_XBGR8888, PROTOCOL_MAX, SHM_ARGB8888,
};
use wl_scrcpy::types::CapturerError;

fn shm(width: u32, height: u32, format: PixelFormat) -> BufferSpec {
    BufferSpec { kind: OfferKind::Shm, width, stride: 4 * width, height, format }
}

fn empty() -> PoolEntry {
    PoolEntry { offered: None, current: None, previous: None }
}

#[test]
fn layout_codes() {
    assert_eq!(SHM_ARGB8888, 0);
    assert_eq!(FOURCC_XBGR8888, 0x3432_4258);
    assert_eq!(FOURCC_ARGB8888, 0x3432_5241);
    assert_eq!(PixelFormat::from_shm_code(0), PixelFormat::Argb8888);
    assert_eq!(PixelFormat::from_shm_code(0x3432_4258), PixelFormat::Xbgr8888);
    assert_eq!(PixelFormat::from_shm_code(1), PixelFormat::Other(1));
    assert_eq!(PixelFormat::from_shm_code(0x3432_5241), PixelFormat::Other(0x3432_5241));
    assert_eq!(PixelFormat::from_fourcc(0x3432_5241), PixelFormat::Argb8888);
    assert_eq!(PixelFormat::from_fourcc(0x3432_4258), PixelFormat::Xbgr8888);
    assert_eq!(PixelFormat::from_fourcc(0), PixelFormat::Other(0));
}

#[test]
fn supported_layouts() {
    assert!(PixelFormat::Argb8888.supported());
    assert!(PixelFormat::Xbgr8888.supported());
    assert!(!PixelFormat::Other(1).supported());
}

#[test]
fn size_is_stride_by_height() {
    let spec = BufferSpec {
        kind: OfferKind::Shm,
        width: 640,
        stride: 2570,
        height: 480,
        format: PixelFormat::Xbgr8888,
    };
    assert_eq!(spec.checked_size(), Some(1_233_600));
    assert_eq!(shm(1920, 1080, PixelFormat::Argb8888).checked_size(), Some(8_294_400));
    assert_eq!(shm(0, 0, PixelFormat::Argb8888).checked_size(), Some(0));
}

#[test]
fn size_at_the_protocol_limit() {
    let widest = BufferSpec {
        kind: OfferKind::Shm,
        width: 1,
        stride: PROTOCOL_MAX,
        height: 1,
        format: PixelFormat::Xbgr8888,
    };
    assert_eq!(widest.checked_size(), Some(PROTOCOL_MAX));
    assert_eq!(BufferSpec { height: 2, ..widest }.checked_size(), None);
    assert_eq!(BufferSpec { stride: PROTOCOL_MAX + 1, ..widest }.checked_size(), None);
    assert_eq!(BufferSpec { width: PROTOCOL_MAX + 1, stride: 4, ..widest }.checked_size(), None);
    assert_eq!(BufferSpec { height: PROTOCOL_MAX + 1, stride: 0, ..widest }.checked_size(), None);
    let square = BufferSpec { stride: 46_341, height: 46_341, ..widest };
    assert_eq!(square.checked_size(), None);
    let below = BufferSpec { stride: 46_340, height: 46_340, ..widest };
    assert_eq!(below.checked_size(), Some(2_147_395_600));
}

#[test]
fn a_new_pool_holds_nothing() {
    let pool = BufferPool::new();
    assert_eq!(pool.entry(0), empty());
    assert_eq!(pool.entry(77), empty());
}

#[test]
fn the_last_offer_wins() {
    let mut pool = BufferPool::new();
    let small = shm(640, 480, PixelFormat::Argb8888);
    let large = shm(1920, 1080, PixelFormat::Xbgr8888);
    pool.offer(4, small);
    assert_eq!(pool.entry(4).offered, Some(small));
    pool.offer(4, large);
    assert_eq!(pool.entry(4).offered, Some(large));
    let finalized = pool.finalize(4).unwrap();
    assert_eq!(finalized.buffer.spec.width, 1920);
    assert_eq!(finalized.buffer.spec.height, 1080);
    assert_eq!(finalized.buffer.spec.format, PixelFormat::Xbgr8888);
    assert_eq!(
        finalized,
        Finalized {
            buffer: FrameBuffer { id: 0, spec: large, size: 1920 * 4 * 1080 },
            released: None,
        }
    );
    assert_eq!(
        pool.entry(4),
        PoolEntry { offered: None, current: Some(finalized.buffer), previous: None }
    );
}

#[test]
fn offers_of_outputs_do_not_mix() {
    let mut pool = BufferPool::new();
    let small = shm(640, 480, PixelFormat::Argb8888);
    let large = shm(1920, 1080, PixelFormat::Xbgr8888);
    pool.offer(1, small);
    pool.offer(2, large);
    assert_eq!(pool.entry(1).offered, Some(small));
    assert_eq!(pool.finalize(2).unwrap().buffer.spec, large);
    assert_eq!(pool.finalize(1).unwrap().buffer, FrameBuffer { id: 1, spec: small, size: 1_228_800 });
}

#[test]
fn finalize_without_an_offer_fails() {
    let mut pool = BufferPool::new();
    assert_eq!(pool.finalize(4), Err(CapturerError::AllocationFailed));
    assert_eq!(pool.entry(4), empty());
    pool.offer(4, shm(2, 2, PixelFormat::Argb8888));
    pool.finalize(4).unwrap();
    let held = pool.entry(4);
    assert_eq!(pool.finalize(4), Err(CapturerError::AllocationFailed));
    assert_eq!(pool.entry(4), held);
}

#[test]
fn a_native_offer_needs_a_supported_layout() {
    let mut pool = BufferPool::new();
    let odd = BufferSpec {
        kind: OfferKind::Dmabuf,
        width: 8,
        stride: 32,
        height: 8,
        format: PixelFormat::Other(0x3231_564e),
    };
    pool.offer(4, odd);
    assert_eq!(pool.finalize(4), Err(CapturerError::UnsupportedPixelFormat));
    assert_eq!(pool.entry(4), empty());
    pool.offer(4, BufferSpec { format: PixelFormat::Argb8888, ..odd });
    assert_eq!(pool.finalize(4).unwrap().buffer.size, 256);
}

#[test]
fn a_shared_memory_offer_is_taken_in_any_layout() {
    let mut pool = BufferPool::new();
    let odd = shm(8, 8, PixelFormat::Other(1));
    pool.offer(4, odd);
    assert_eq!(
        pool.finalize(4),
        Ok(Finalized { buffer: FrameBuffer { id: 0, spec: odd, size: 256 }, released: None })
    );
}

#[test]
fn an_offer_too_large_fails_and_is_withdrawn() {
    let mut pool = BufferPool::new();
    let huge = BufferSpec {
        kind: OfferKind::Shm,
        width: 65_536,
        stride: 262_144,
        height: 65_536,
        format: PixelFormat::Xbgr8888,
    };
    pool.offer(4, huge);
    assert_eq!(pool.finalize(4), Err(CapturerError::AllocationFailed));
    assert_eq!(pool.entry(4), empty());
}

#[test]
fn the_buffer_before_is_kept_for_one_round() {
    let mut pool = BufferPool::new();
    let spec = shm(4, 4, PixelFormat::Xbgr8888);
    pool.offer(4, spec);
    let first = pool.finalize(4).unwrap();
    pool.offer(4, spec);
    let second = pool.finalize(4).unwrap();
    assert_eq!(second.buffer.id, 1);
    assert_eq!(second.released, None);
    assert_eq!(
        pool.entry(4),
        PoolEntry { offered: None, current: Some(second.buffer), previous: Some(first.buffer) }
    );
    pool.offer(4, spec);
    let third = pool.finalize(4).unwrap();
    assert_eq!(third.buffer.id, 2);
    assert_eq!(third.released, Some(0));
    assert_eq!(
        pool.entry(4),
        PoolEntry { offered: None, current: Some(third.buffer), previous: Some(second.buffer) }
    );
}

#[test]
fn a_failed_round_keeps_the_buffers() {
    let mut pool = BufferPool::new();
    pool.offer(4, shm(4, 4, PixelFormat::Xbgr8888));
    let first = pool.finalize(4).unwrap();
    pool.offer(
        4,
        BufferSpec {
            kind: OfferKind::Dmabuf,
            width: 4,
            stride: 16,
            height: 4,
            format: PixelFormat::Other(9),
        },
    );
    assert_eq!(pool.finalize(4), Err(CapturerError::UnsupportedPixelFormat));
    assert_eq!(pool.entry(4), PoolEntry { offered: None, current: Some(first.buffer), previous: None });
}

#[test]
fn withdraw_drops_the_offer_only() {
    let mut pool = BufferPool::new();
    pool.offer(4, shm(4, 4, PixelFormat::Xbgr8888));
    let first = pool.finalize(4).unwrap();
    pool.offer(4, shm(8, 8, PixelFormat::Xbgr8888));
    pool.withdraw(4);
    assert_eq!(pool.entry(4), PoolEntry { offered: None, current: Some(first.buffer), previous: None });
    pool.withdraw(5);
    assert_eq!(pool.entry(5), empty());
}

#[test]
fn remove_names_the_buffers_held() {
    let mut pool = BufferPool::new();
    assert_eq!(pool.remove(4), (None, None));
    let spec = shm(4, 4, PixelFormat::Xbgr8888);
    pool.offer(4, spec);
    pool.finalize(4).unwrap();
    pool.offer(9, spec);
    pool.finalize(9).unwrap();
    pool.offer(4, spec);
    pool.finalize(4).unwrap();
    assert_eq!(pool.remove(4), (Some(2), Some(0)));
    assert_eq!(pool.entry(4), empty());
    assert_eq!(pool.remove(9), (Some(1), None));
    pool.offer(4, spec);
    assert_eq!(pool.finalize(4).unwrap().buffer.id, 3);
}

#[test]
fn layouts_go_back_to_their_codes() {
    assert_eq!(PixelFormat::Argb8888.shm_code(), 0);
    assert_eq!(PixelFormat::Xbgr8888.shm_code(), 0x3432_4258);
    assert_eq!(PixelFormat::Other(1).shm_code(), 1);
    for code in [0, 1, 0x3432_4258, 0x3432_5241, u32::MAX] {
        assert_eq!(PixelFormat::from_shm_code(code).shm_code(), code);
    }
}

#[test]
fn negotiation_takes_the_last_candidate() {
    let mut pool = BufferPool::new();
    let small = shm(640, 480, PixelFormat::Argb8888);
    let large = shm(1920, 1080, PixelFormat::Xbgr8888);
    let finalized = pool.negotiate_and_allocate(4, &vec![small, large]).unwrap();
    assert_eq!(finalized.buffer.spec.width, 1920);
    assert_eq!(finalized.buffer.spec.height, 1080);
    assert_eq!(finalized.buffer.spec.format, PixelFormat::Xbgr8888);
    assert_eq!(finalized.buffer.size, 8_294_400);
    let again = pool.negotiate_and_allocate(4, &vec![large, large, small]).unwrap();
    assert_eq!(again.buffer, FrameBuffer { id: 1, spec: small, size: 1_228_800 });
    assert_eq!(pool.entry(4).previous, Some(finalized.buffer));
}

#[test]
fn negotiation_without_candidates() {
    let mut pool = BufferPool::new();
    assert_eq!(pool.negotiate_and_allocate(4, &vec![]), Err(CapturerError::AllocationFailed));
    let spec = shm(2, 2, PixelFormat::Argb8888);
    pool.offer(4, spec);
    assert_eq!(
        pool.negotiate_and_allocate(4, &vec![]),
        Ok(Finalized { buffer: FrameBuffer { id: 0, spec, size: 16 }, released: None })
    );
}

#[test]
fn negotiation_fails_on_the_last_candidate_alone() {
    let mut pool = BufferPool::new();
    let good = shm(2, 2, PixelFormat::Argb8888);
    let odd = BufferSpec {
        kind: OfferKind::Dmabuf,
        width: 2,
        stride: 8,
        height: 2,
        format: PixelFormat::Other(7),
    };
    assert_eq!(
        pool.negotiate_and_allocate(4, &vec![good, odd]),
        Err(CapturerError::UnsupportedPixelFormat)
    );
    assert_eq!(pool.entry(4).offered, None);
    assert_eq!(pool.negotiate_and_allocate(4, &vec![odd, good]).unwrap().buffer.spec, good);
}
