use wl_scrcpy::buffer_pool::{BufferSpec, FrameBuffer, OfferKind, PixelFormat, PoolEntry};
use wl_scrcpy::engine::{Action, CapturerState, FrameEvent, Round};
use wl_scrcpy::output_info::{OutputEvent, WlOutputMapping};
use wl_scrcpy::types::{CaptureType, CapturerError, CapturerStatus, FrameTime, OutputIdentifier};

const XBGR: u32 = 0x3432_4258;

fn offer(width: u32, height: u32, format: u32) -> FrameEvent {
    FrameEvent::Buffer { format, width, height, stride: 4 * width }
}

fn ready(secs: u32, nanos: u32) -> FrameEvent {
    FrameEvent::Ready { tv_sec_hi: 0, tv_sec_lo: secs, tv_nsec: nanos }
}

fn shm(width: u32, height: u32, format: PixelFormat) -> BufferSpec {
    BufferSpec { kind: OfferKind::Shm, width, stride: 4 * width, height, format }
}

fn output(id: u32, name: &str) -> WlOutputMapping {
    let mut mapping = WlOutputMapping::new(id);
    mapping.handle_event(OutputEvent::Name(name.to_string())).unwrap();
    mapping.handle_event(OutputEvent::Mode { width: 2, height: 2, refresh: 60_000 }).unwrap();
    mapping.handle_event(OutputEvent::Scale(1)).unwrap();
    mapping.handle_event(OutputEvent::Done).unwrap();
    mapping
}

fn decode(png: &[u8]) -> (u32, u32, Vec<u8>) {
    let image = image::load_from_memory_with_format(png, image::ImageFormat::Png).unwrap();
    let rgba = image.into_rgba8();
    (rgba.width(), rgba.height(), rgba.into_raw())
}

fn copying(capture_type: CaptureType) -> CapturerState {
    let mut state = CapturerState::new(2);
    state.poll_capture(capture_type, 7).unwrap();
    state.event(0, offer(2, 2, XBGR), &[]);
    state.event(0, FrameEvent::BufferDone, &[]);
    state
}

#[test]
fn a_new_engine_is_at_rest() {
    let state = CapturerState::new(5);
    assert_eq!(state.status, CapturerStatus::NotStarted);
    assert_eq!(state.round, None);
    assert!(!state.stop_requested);
    assert_eq!(state.last_frame_at, None);
    assert_eq!(state.failures, 0);
    assert_eq!(state.retry_limit, 5);
    assert_eq!(state.next_frame, 0);
}

#[test]
fn a_capture_asks_for_the_output() {
    let mut state = CapturerState::new(0);
    let actions = state.poll_capture(CaptureType::Frame, 7).unwrap();
    assert_eq!(actions, vec![Action::RequestCapture { output: 7, frame: 0 }]);
    assert_eq!(state.status, CapturerStatus::Pending { capture_type: CaptureType::Frame });
    assert_eq!(state.round, Some(Round { output: 7, frame: 0, closed: false }));
    assert_eq!(state.next_frame, 1);
}

#[test]
fn a_second_capture_is_refused() {
    let mut state = CapturerState::new(0);
    state.poll_capture(CaptureType::Frame, 7).unwrap();
    let refused = state.poll_capture(CaptureType::Frame, 7);
    assert_eq!(
        refused,
        Err(CapturerError::InvalidTransition {
            found: "Pending".to_string(),
            expected: vec!["NotStarted".to_string(), "Done".to_string(), "Failed".to_string()],
            to: "Pending".to_string(),
        })
    );
    assert_eq!(state.round, Some(Round { output: 7, frame: 0, closed: false }));
    assert_eq!(state.next_frame, 1);
}

#[test]
fn capture_resolves_the_output() {
    let records = vec![output(3, "eDP-1"), output(4, "HDMI-A-1")];
    let mut state = CapturerState::new(0);
    let actions = state
        .capture(&records, &OutputIdentifier::Name("HDMI-A-1".to_string()), CaptureType::Stream)
        .unwrap();
    assert_eq!(actions, vec![Action::RequestCapture { output: 4, frame: 0 }]);
    assert_eq!(state.status, CapturerStatus::Pending { capture_type: CaptureType::Stream });
}

#[test]
fn capture_of_an_absent_output_fails() {
    let records = vec![output(3, "eDP-1")];
    let mut state = CapturerState::new(0);
    let missed = state.capture(
        &records,
        &OutputIdentifier::Name("HDMI-A-1".to_string()),
        CaptureType::Frame,
    );
    assert_eq!(missed, Err(CapturerError::OutputNotFound));
    assert_eq!(state.status, CapturerStatus::NotStarted);
    assert_eq!(state.round, None);
    assert_eq!(state.next_frame, 0);
}

#[test]
fn offers_are_recorded_and_the_last_wins() {
    let mut state = CapturerState::new(0);
    state.poll_capture(CaptureType::Frame, 7).unwrap();
    assert_eq!(state.event(0, offer(640, 480, 0), &[]), vec![]);
    assert_eq!(state.pool.entry(7).offered, Some(shm(640, 480, PixelFormat::Argb8888)));
    assert_eq!(state.event(0, offer(1920, 1080, XBGR), &[]), vec![]);
    let actions = state.event(0, FrameEvent::BufferDone, &[]);
    let buffer = FrameBuffer { id: 0, spec: shm(1920, 1080, PixelFormat::Xbgr8888), size: 8_294_400 };
    assert_eq!(buffer.spec.width, 1920);
    assert_eq!(buffer.spec.height, 1080);
    assert_eq!(
        actions,
        vec![Action::Allocate { buffer }, Action::Copy { frame: 0, id: 0 }]
    );
    assert_eq!(
        state.status,
        CapturerStatus::Running { capture_type: CaptureType::Frame, last_frame_at: None }
    );
    assert_eq!(state.round, Some(Round { output: 7, frame: 0, closed: true }));
    assert_eq!(state.pool.entry(7), PoolEntry { offered: None, current: Some(buffer), previous: None });
}

#[test]
fn a_native_offer_has_four_bytes_to_the_pixel() {
    let mut state = CapturerState::new(0);
    state.poll_capture(CaptureType::Frame, 7).unwrap();
    state.event(0, FrameEvent::LinuxDmabuf { format: 0x3432_5241, width: 8, height: 4 }, &[]);
    assert_eq!(
        state.pool.entry(7).offered,
        Some(BufferSpec {
            kind: OfferKind::Dmabuf,
            width: 8,
            stride: 32,
            height: 4,
            format: PixelFormat::Argb8888,
        })
    );
    state.event(0, FrameEvent::LinuxDmabuf { format: 1, width: 0x4000_0000, height: 1 }, &[]);
    assert_eq!(
        state.pool.entry(7).offered,
        Some(BufferSpec {
            kind: OfferKind::Dmabuf,
            width: 0x4000_0000,
            stride: u32::MAX,
            height: 1,
            format: PixelFormat::Other(1),
        })
    );
}

#[test]
fn a_native_offer_in_an_unsupported_layout_fails_the_round() {
    let mut state = CapturerState::new(0);
    state.poll_capture(CaptureType::Frame, 7).unwrap();
    state.event(0, FrameEvent::LinuxDmabuf { format: 0x3231_564e, width: 8, height: 4 }, &[]);
    let actions = state.event(0, FrameEvent::BufferDone, &[]);
    assert_eq!(
        actions,
        vec![
            Action::DestroyFrame { frame: 0 },
            Action::Surface { error: CapturerError::UnsupportedPixelFormat },
        ]
    );
    assert_eq!(state.status, CapturerStatus::Failed);
    assert_eq!(state.round, None);
    assert_eq!(state.failures, 1);
    assert_eq!(state.pool.entry(7).offered, None);
}

#[test]
fn the_end_of_offers_without_an_offer_fails_the_round() {
    let mut state = CapturerState::new(0);
    state.poll_capture(CaptureType::Frame, 7).unwrap();
    let actions = state.event(0, FrameEvent::BufferDone, &[]);
    assert_eq!(
        actions,
        vec![
            Action::DestroyFrame { frame: 0 },
            Action::Surface { error: CapturerError::AllocationFailed },
        ]
    );
    assert_eq!(state.status, CapturerStatus::Failed);
}

#[test]
fn an_offer_too_large_fails_the_round() {
    let mut state = CapturerState::new(0);
    state.poll_capture(CaptureType::Frame, 7).unwrap();
    state.event(0, offer(65_536, 65_536, XBGR), &[]);
    let actions = state.event(0, FrameEvent::BufferDone, &[]);
    assert_eq!(
        actions,
        vec![
            Action::DestroyFrame { frame: 0 },
            Action::Surface { error: CapturerError::AllocationFailed },
        ]
    );
}

#[test]
fn a_late_offer_is_ignored() {
    let mut state = copying(CaptureType::Frame);
    let before = state.clone();
    assert_eq!(state.event(0, offer(640, 480, 0), &[]), vec![]);
    assert_eq!(
        state.event(0, FrameEvent::LinuxDmabuf { format: 0, width: 1, height: 1 }, &[]),
        vec![]
    );
    assert_eq!(state.event(0, FrameEvent::BufferDone, &[]), vec![]);
    assert_eq!(state.status, before.status);
    assert_eq!(state.round, before.round);
    assert_eq!(state.pool.entry(7), before.pool.entry(7));
}

#[test]
fn events_of_another_capture_object_are_ignored() {
    let mut state = copying(CaptureType::Frame);
    let before = state.clone();
    for event in [ready(1, 0), FrameEvent::Failed, FrameEvent::BufferDone, offer(1, 1, 0)] {
        assert_eq!(state.event(1, event, &[0; 16]), vec![]);
    }
    assert_eq!(state.status, before.status);
    assert_eq!(state.round, before.round);
    assert_eq!(state.pool.entry(7), before.pool.entry(7));
    let mut idle = CapturerState::new(0);
    assert_eq!(idle.event(0, ready(1, 0), &[]), vec![]);
    assert_eq!(idle.status, CapturerStatus::NotStarted);
}

#[test]
fn a_success_before_the_copy_is_ignored() {
    let mut state = CapturerState::new(0);
    state.poll_capture(CaptureType::Frame, 7).unwrap();
    state.event(0, offer(2, 2, XBGR), &[]);
    assert_eq!(state.event(0, ready(1, 0), &[0; 16]), vec![]);
    assert_eq!(state.status, CapturerStatus::Pending { capture_type: CaptureType::Frame });
}

#[test]
fn other_events_are_ignored() {
    let mut state = copying(CaptureType::Stream);
    assert_eq!(state.event(0, FrameEvent::Other, &[]), vec![]);
    assert_eq!(state.round, Some(Round { output: 7, frame: 0, closed: true }));
}

#[test]
fn a_still_image_is_written_and_the_session_is_done() {
    let mut state = copying(CaptureType::Frame);
    let contents = [255, 0, 0, 255, 0, 255, 0, 255, 0, 0, 255, 255, 40, 30, 20, 10];
    let actions = state.event(0, ready(9, 5), &contents);
    assert_eq!(actions.len(), 2);
    let Action::WriteImage { png } = &actions[0] else {
        panic!("no image");
    };
    assert_eq!(decode(png), (2, 2, contents.to_vec()));
    assert_eq!(actions[1], Action::DestroyFrame { frame: 0 });
    assert_eq!(state.status, CapturerStatus::Done);
    assert_eq!(state.round, None);
    assert_eq!(state.failures, 0);
    assert_eq!(state.next_frame, 1);
}

#[test]
fn a_still_image_in_the_other_layout() {
    let mut state = CapturerState::new(0);
    state.poll_capture(CaptureType::Frame, 7).unwrap();
    state.event(0, offer(1, 2, 0), &[]);
    state.event(0, FrameEvent::BufferDone, &[]);
    let actions = state.event(0, ready(9, 5), &[1, 2, 3, 4, 5, 6, 7, 8]);
    let Action::WriteImage { png } = &actions[0] else {
        panic!("no image");
    };
    assert_eq!(decode(png), (1, 2, vec![2, 3, 4, 1, 6, 7, 8, 5]));
}

#[test]
fn a_still_image_in_an_unsupported_layout_fails() {
    let mut state = CapturerState::new(0);
    state.poll_capture(CaptureType::Frame, 7).unwrap();
    state.event(0, offer(2, 2, 1), &[]);
    state.event(0, FrameEvent::BufferDone, &[]);
    let actions = state.event(0, ready(9, 5), &[0; 16]);
    assert_eq!(
        actions,
        vec![
            Action::DestroyFrame { frame: 0 },
            Action::Surface { error: CapturerError::UnsupportedPixelFormat },
        ]
    );
    assert_eq!(state.status, CapturerStatus::Failed);
}

#[test]
fn a_still_image_from_a_short_buffer_fails() {
    let mut state = copying(CaptureType::Frame);
    let actions = state.event(0, ready(9, 5), &[0; 15]);
    assert_eq!(
        actions,
        vec![
            Action::DestroyFrame { frame: 0 },
            Action::Surface { error: CapturerError::CopyFailed },
        ]
    );
    assert_eq!(state.status, CapturerStatus::Failed);
    assert_eq!(state.failures, 1);
}

#[test]
fn a_failed_copy_of_a_still_image_is_reported() {
    let mut state = copying(CaptureType::Frame);
    let actions = state.event(0, FrameEvent::Failed, &[]);
    assert_eq!(
        actions,
        vec![
            Action::DestroyFrame { frame: 0 },
            Action::Surface { error: CapturerError::CopyFailed },
        ]
    );
    assert_eq!(state.status, CapturerStatus::Failed);
    assert_eq!(state.round, None);
}

#[test]
fn a_failure_before_the_offers_end_is_reported_too() {
    let mut state = CapturerState::new(0);
    state.poll_capture(CaptureType::Frame, 7).unwrap();
    state.event(0, offer(2, 2, XBGR), &[]);
    let actions = state.event(0, FrameEvent::Failed, &[]);
    assert_eq!(
        actions,
        vec![
            Action::DestroyFrame { frame: 0 },
            Action::Surface { error: CapturerError::CopyFailed },
        ]
    );
    assert_eq!(state.status, CapturerStatus::Failed);
    assert_eq!(state.pool.entry(7).offered, None);
}

#[test]
fn a_new_capture_follows_a_finished_one() {
    let mut state = copying(CaptureType::Frame);
    state.event(0, FrameEvent::Failed, &[]);
    assert_eq!(state.failures, 1);
    let actions = state.poll_capture(CaptureType::Frame, 7).unwrap();
    assert_eq!(actions, vec![Action::RequestCapture { output: 7, frame: 1 }]);
    assert_eq!(state.failures, 0);
    assert_eq!(state.event(0, FrameEvent::BufferDone, &[]), vec![]);
    state.event(1, offer(2, 2, XBGR), &[]);
    let actions = state.event(1, FrameEvent::BufferDone, &[]);
    assert_eq!(
        actions,
        vec![
            Action::Allocate {
                buffer: FrameBuffer { id: 1, spec: shm(2, 2, PixelFormat::Xbgr8888), size: 16 }
            },
            Action::Copy { frame: 1, id: 1 },
        ]
    );
}

#[test]
fn a_stream_reports_each_frame_and_goes_on() {
    let mut state = CapturerState::new(2);
    state.poll_capture(CaptureType::Stream, 7).unwrap();
    let mut reports = Vec::new();
    for round in 0..5u64 {
        assert_eq!(state.status, CapturerStatus::Pending { capture_type: CaptureType::Stream });
        assert_eq!(state.round, Some(Round { output: 7, frame: round, closed: false }));
        state.event(round, offer(2, 2, XBGR), &[]);
        let actions = state.event(round, FrameEvent::BufferDone, &[]);
        assert_eq!(actions[actions.len() - 1], Action::Copy { frame: round, id: round });
        assert_eq!(
            state.status,
            CapturerStatus::Running { capture_type: CaptureType::Stream, last_frame_at: None }
        );
        let actions = state.event(round, ready(10 + round as u32, 0), &[]);
        assert_eq!(actions.len(), 3);
        reports.push(actions[0].clone());
        assert_eq!(actions[1], Action::DestroyFrame { frame: round });
        assert_eq!(actions[2], Action::RequestCapture { output: 7, frame: round + 1 });
    }
    assert_eq!(
        reports,
        vec![
            Action::ReportFrame { at: FrameTime { secs: 10, nanos: 0 }, rate: None },
            Action::ReportFrame { at: FrameTime { secs: 11, nanos: 0 }, rate: Some(1000) },
            Action::ReportFrame { at: FrameTime { secs: 12, nanos: 0 }, rate: Some(1000) },
            Action::ReportFrame { at: FrameTime { secs: 13, nanos: 0 }, rate: Some(1000) },
            Action::ReportFrame { at: FrameTime { secs: 14, nanos: 0 }, rate: Some(1000) },
        ]
    );
    assert_eq!(state.last_frame_at, Some(FrameTime { secs: 14, nanos: 0 }));
    assert_eq!(state.status, CapturerStatus::Pending { capture_type: CaptureType::Stream });
}

#[test]
fn a_stream_keeps_the_buffer_of_the_round_before() {
    let mut state = CapturerState::new(2);
    state.poll_capture(CaptureType::Stream, 7).unwrap();
    let spec = shm(2, 2, PixelFormat::Xbgr8888);
    let buffer = |id: u64| FrameBuffer { id, spec, size: 16 };
    for round in 0..2u64 {
        state.event(round, offer(2, 2, XBGR), &[]);
        let actions = state.event(round, FrameEvent::BufferDone, &[]);
        assert_eq!(
            actions,
            vec![
                Action::Allocate { buffer: buffer(round) },
                Action::Copy { frame: round, id: round },
            ]
        );
        state.event(round, ready(1 + round as u32, 0), &[]);
    }
    state.event(2, offer(2, 2, XBGR), &[]);
    let actions = state.event(2, FrameEvent::BufferDone, &[]);
    assert_eq!(
        actions,
        vec![
            Action::Release { id: 0 },
            Action::Allocate { buffer: buffer(2) },
            Action::Copy { frame: 2, id: 2 },
        ]
    );
    assert_eq!(
        state.pool.entry(7),
        PoolEntry { offered: None, current: Some(buffer(2)), previous: Some(buffer(1)) }
    );
}

#[test]
fn a_stream_reports_the_rate_between_frames() {
    let mut state = copying(CaptureType::Stream);
    state.event(0, ready(100, 0), &[]);
    state.event(1, offer(2, 2, XBGR), &[]);
    state.event(1, FrameEvent::BufferDone, &[]);
    let actions = state.event(1, ready(100, 20_000_000), &[]);
    assert_eq!(
        actions[0],
        Action::ReportFrame { at: FrameTime { secs: 100, nanos: 20_000_000 }, rate: Some(50_000) }
    );
    state.event(2, offer(2, 2, XBGR), &[]);
    state.event(2, FrameEvent::BufferDone, &[]);
    let actions = state.event(2, ready(100, 20_000_000), &[]);
    assert_eq!(
        actions[0],
        Action::ReportFrame { at: FrameTime { secs: 100, nanos: 20_000_000 }, rate: None }
    );
}

#[test]
fn a_stream_retries_after_a_failure() {
    let mut state = copying(CaptureType::Stream);
    let actions = state.event(0, FrameEvent::Failed, &[]);
    assert_eq!(
        actions,
        vec![Action::DestroyFrame { frame: 0 }, Action::RequestCapture { output: 7, frame: 1 }]
    );
    assert_eq!(state.status, CapturerStatus::Pending { capture_type: CaptureType::Stream });
    assert_eq!(state.failures, 1);
    state.event(1, offer(2, 2, XBGR), &[]);
    state.event(1, FrameEvent::BufferDone, &[]);
    state.event(1, ready(1, 0), &[]);
    assert_eq!(state.failures, 0);
}

#[test]
fn a_stream_gives_up_after_too_many_failures_in_a_row() {
    let mut state = CapturerState::new(2);
    state.poll_capture(CaptureType::Stream, 7).unwrap();
    assert_eq!(
        state.event(0, FrameEvent::Failed, &[]),
        vec![Action::DestroyFrame { frame: 0 }, Action::RequestCapture { output: 7, frame: 1 }]
    );
    assert_eq!(
        state.event(1, FrameEvent::Failed, &[]),
        vec![Action::DestroyFrame { frame: 1 }, Action::RequestCapture { output: 7, frame: 2 }]
    );
    assert_eq!(
        state.event(2, FrameEvent::Failed, &[]),
        vec![
            Action::DestroyFrame { frame: 2 },
            Action::Surface { error: CapturerError::CopyFailed },
        ]
    );
    assert_eq!(state.status, CapturerStatus::Failed);
    assert_eq!(state.round, None);
    assert_eq!(state.failures, 3);
}

#[test]
fn a_stream_without_retries_fails_at_once() {
    let mut state = CapturerState::new(0);
    state.poll_capture(CaptureType::Stream, 7).unwrap();
    assert_eq!(
        state.event(0, FrameEvent::BufferDone, &[]),
        vec![
            Action::DestroyFrame { frame: 0 },
            Action::Surface { error: CapturerError::AllocationFailed },
        ]
    );
}

#[test]
fn a_stop_ends_the_stream_at_once() {
    let mut state = copying(CaptureType::Stream);
    state.event(0, ready(1, 0), &[]);
    state.event(1, offer(2, 2, XBGR), &[]);
    assert_eq!(state.stop_capture(), vec![Action::DestroyFrame { frame: 1 }]);
    assert_eq!(state.status, CapturerStatus::Done);
    assert_eq!(state.round, None);
    assert!(state.stop_requested);
    assert_eq!(state.pool.entry(7).offered, None);
    assert_eq!(state.event(1, FrameEvent::BufferDone, &[]), vec![]);
    assert_eq!(state.event(1, ready(2, 0), &[]), vec![]);
    assert_eq!(state.status, CapturerStatus::Done);
}

#[test]
fn a_stop_during_the_copy() {
    let mut state = copying(CaptureType::Stream);
    assert_eq!(state.stop_capture(), vec![Action::DestroyFrame { frame: 0 }]);
    assert_eq!(state.status, CapturerStatus::Done);
    assert_eq!(state.event(0, ready(2, 0), &[]), vec![]);
}

#[test]
fn a_second_stop_does_nothing() {
    let mut state = copying(CaptureType::Stream);
    state.stop_capture();
    let status = state.status;
    assert_eq!(state.stop_capture(), vec![]);
    assert_eq!(state.status, status);
    assert_eq!(state.round, None);
    let mut idle = CapturerState::new(0);
    assert_eq!(idle.stop_capture(), vec![]);
    assert_eq!(idle.status, CapturerStatus::NotStarted);
    assert!(idle.stop_requested);
}

#[test]
fn a_capture_after_a_stop_starts_afresh() {
    let mut state = copying(CaptureType::Stream);
    state.event(0, ready(5, 0), &[]);
    state.stop_capture();
    let actions = state.poll_capture(CaptureType::Stream, 7).unwrap();
    assert_eq!(actions, vec![Action::RequestCapture { output: 7, frame: 2 }]);
    assert!(!state.stop_requested);
    assert_eq!(state.last_frame_at, None);
    state.event(2, offer(2, 2, XBGR), &[]);
    state.event(2, FrameEvent::BufferDone, &[]);
    let actions = state.event(2, ready(6, 0), &[]);
    assert_eq!(
        actions,
        vec![
            Action::ReportFrame { at: FrameTime { secs: 6, nanos: 0 }, rate: None },
            Action::DestroyFrame { frame: 2 },
            Action::RequestCapture { output: 7, frame: 3 },
        ]
    );
}

#[test]
fn the_numbers_of_capture_objects_wrap() {
    let mut state = CapturerState::new(0);
    state.next_frame = u64::MAX;
    let actions = state.poll_capture(CaptureType::Frame, 7).unwrap();
    assert_eq!(actions, vec![Action::RequestCapture { output: 7, frame: u64::MAX }]);
    assert_eq!(state.next_frame, 0);
}

#[test]
fn a_round_that_cannot_be_carried_on_is_aborted() {
    let mut state = copying(CaptureType::Frame);
    assert_eq!(state.abort(3, CapturerError::AllocationFailed), vec![]);
    assert_eq!(state.round, Some(Round { output: 7, frame: 0, closed: true }));
    let actions = state.abort(0, CapturerError::AllocationFailed);
    assert_eq!(
        actions,
        vec![
            Action::DestroyFrame { frame: 0 },
            Action::Surface { error: CapturerError::AllocationFailed },
        ]
    );
    assert_eq!(state.status, CapturerStatus::Failed);
    assert_eq!(state.abort(0, CapturerError::AllocationFailed), vec![]);
    let mut stream = copying(CaptureType::Stream);
    assert_eq!(
        stream.abort(0, CapturerError::IoWriteFailed),
        vec![Action::DestroyFrame { frame: 0 }, Action::RequestCapture { output: 7, frame: 1 }]
    );
}

#[test]
fn the_engine_checks_its_own_order() {
    let mut state = CapturerState::new(0);
    assert!(state.in_order());
    state.poll_capture(CaptureType::Frame, 7).unwrap();
    assert!(state.in_order());
    state.event(0, offer(2, 2, XBGR), &[]);
    state.event(0, FrameEvent::BufferDone, &[]);
    assert!(state.in_order());
    let mut broken = state.clone();
    broken.status = CapturerStatus::Done;
    assert!(!broken.in_order());
    let mut broken = state.clone();
    broken.round = Some(Round { output: 8, frame: 0, closed: true });
    assert!(!broken.in_order());
    let mut broken = state.clone();
    broken.round = None;
    assert!(!broken.in_order());
    state.event(0, ready(1, 0), &[0; 16]);
    assert!(state.in_order());
    state.round = Some(Round { output: 7, frame: 0, closed: false });
    assert!(!state.in_order());
}
