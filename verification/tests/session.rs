use wl_scrcpy::types::{
    frame_rate_millihertz, CaptureType, CapturerError, CapturerStatus, FrameTime, StatusKind,
};

fn invalid(found: &str, expected: &[&str], to: &str) -> CapturerError {
    CapturerError::InvalidTransition {
        found: found.to_string(),
        expected: expected.iter().map(|s| s.to_string()).collect(),
        to: to.to_string(),
    }
}

fn running(capture_type: CaptureType) -> CapturerStatus {
    CapturerStatus::Running { capture_type, last_frame_at: None }
}

const REST: [&str; 3] = ["NotStarted", "Done", "Failed"];

#[test]
fn state_names() {
    assert_eq!(CapturerStatus::NotStarted.get_type(), "NotStarted");
    assert_eq!(CapturerStatus::Pending { capture_type: CaptureType::Frame }.get_type(), "Pending");
    assert_eq!(running(CaptureType::Stream).get_type(), "Running");
    assert_eq!(CapturerStatus::Done.get_type(), "Done");
    assert_eq!(CapturerStatus::Failed.get_type(), "Failed");
}

#[test]
fn state_kinds() {
    assert_eq!(CapturerStatus::NotStarted.kind(), StatusKind::NotStarted);
    assert_eq!(running(CaptureType::Frame).kind(), StatusKind::Running);
    assert_eq!(CapturerStatus::Failed.kind(), StatusKind::Failed);
}

#[test]
fn initialize_from_rest() {
    for start in [CapturerStatus::NotStarted, CapturerStatus::Done, CapturerStatus::Failed] {
        let mut status = start;
        assert_eq!(status.initialize(CaptureType::Stream), Ok(()));
        assert_eq!(status, CapturerStatus::Pending { capture_type: CaptureType::Stream });
    }
}

#[test]
fn initialize_twice_is_refused() {
    let mut status = CapturerStatus::NotStarted;
    assert_eq!(status.initialize(CaptureType::Frame), Ok(()));
    let second = status.initialize(CaptureType::Frame);
    assert_eq!(second, Err(invalid("Pending", &REST, "Pending")));
    assert_eq!(status, CapturerStatus::Pending { capture_type: CaptureType::Frame });
}

#[test]
fn initialize_while_running_is_refused() {
    let mut status = running(CaptureType::Frame);
    assert_eq!(status.initialize(CaptureType::Stream), Err(invalid("Running", &REST, "Pending")));
    assert_eq!(status, running(CaptureType::Frame));
}

#[test]
fn start_only_from_pending() {
    let mut status = CapturerStatus::Pending { capture_type: CaptureType::Stream };
    assert_eq!(status.start(), Ok(()));
    assert_eq!(status, running(CaptureType::Stream));
    for start in [
        CapturerStatus::NotStarted,
        CapturerStatus::Done,
        CapturerStatus::Failed,
        running(CaptureType::Frame),
    ] {
        let mut status = start;
        let found = start.get_type();
        assert_eq!(status.start(), Err(invalid(&found, &["Pending"], "Running")));
        assert_eq!(status, start);
    }
}

#[test]
fn start_forgets_the_last_frame() {
    let mut status = CapturerStatus::Pending { capture_type: CaptureType::Frame };
    status.start().unwrap();
    assert_eq!(
        status,
        CapturerStatus::Running { capture_type: CaptureType::Frame, last_frame_at: None }
    );
}

#[test]
fn done_only_from_running() {
    let mut status = CapturerStatus::Running {
        capture_type: CaptureType::Stream,
        last_frame_at: Some(FrameTime { secs: 3, nanos: 4 }),
    };
    assert_eq!(status.done(), Ok(()));
    assert_eq!(status, CapturerStatus::Done);
    for start in [
        CapturerStatus::NotStarted,
        CapturerStatus::Pending { capture_type: CaptureType::Frame },
        CapturerStatus::Done,
        CapturerStatus::Failed,
    ] {
        let mut status = start;
        let found = start.get_type();
        assert_eq!(status.done(), Err(invalid(&found, &["Running"], "Done")));
        assert_eq!(status, start);
    }
}

#[test]
fn errored_only_from_running() {
    let mut status = running(CaptureType::Frame);
    assert_eq!(status.errored(&CapturerError::CopyFailed), Ok(()));
    assert_eq!(status, CapturerStatus::Failed);
    for start in [
        CapturerStatus::NotStarted,
        CapturerStatus::Pending { capture_type: CaptureType::Frame },
        CapturerStatus::Done,
        CapturerStatus::Failed,
    ] {
        let mut status = start;
        let found = start.get_type();
        assert_eq!(
            status.errored(&CapturerError::CopyFailed),
            Err(invalid(&found, &["Running"], "Failed"))
        );
        assert_eq!(status, start);
    }
}

#[test]
fn reset_from_rest() {
    for start in [CapturerStatus::NotStarted, CapturerStatus::Done, CapturerStatus::Failed] {
        let mut status = start;
        assert_eq!(status.reset(), Ok(()));
        assert_eq!(status, CapturerStatus::NotStarted);
    }
}

#[test]
fn reset_in_flight_is_refused() {
    let pending = CapturerStatus::Pending { capture_type: CaptureType::Frame };
    let mut status = pending;
    assert_eq!(status.reset(), Err(invalid("Pending", &REST, "NotStarted")));
    assert_eq!(status, pending);
    let mut status = running(CaptureType::Stream);
    assert_eq!(status.reset(), Err(invalid("Running", &REST, "NotStarted")));
    assert_eq!(status, running(CaptureType::Stream));
}

#[test]
fn a_whole_session() {
    let mut status = CapturerStatus::NotStarted;
    status.initialize(CaptureType::Frame).unwrap();
    status.start().unwrap();
    status.done().unwrap();
    assert_eq!(status, CapturerStatus::Done);
    status.initialize(CaptureType::Stream).unwrap();
    status.start().unwrap();
    status.errored(&CapturerError::AllocationFailed).unwrap();
    assert_eq!(status, CapturerStatus::Failed);
    status.reset().unwrap();
    assert_eq!(status, CapturerStatus::NotStarted);
}

#[test]
fn seconds_are_joined() {
    assert_eq!(FrameTime::from_wire(0, 0, 0), FrameTime { secs: 0, nanos: 0 });
    assert_eq!(FrameTime::from_wire(1, 2, 3), FrameTime { secs: 4_294_967_298, nanos: 3 });
    assert_eq!(
        FrameTime::from_wire(u32::MAX, u32::MAX, u32::MAX),
        FrameTime { secs: u64::MAX, nanos: u32::MAX }
    );
}

#[test]
fn frame_rate_of_fifty_hertz() {
    let before = FrameTime { secs: 10, nanos: 990_000_000 };
    let after = FrameTime { secs: 11, nanos: 10_000_000 };
    assert_eq!(frame_rate_millihertz(before, after), Some(50_000));
}

#[test]
fn frame_rate_rounds_down() {
    let before = FrameTime { secs: 1, nanos: 0 };
    let after = FrameTime { secs: 1, nanos: 16_666_667 };
    assert_eq!(frame_rate_millihertz(before, after), Some(59_999));
    let slow = FrameTime { secs: 4, nanos: 0 };
    assert_eq!(frame_rate_millihertz(before, slow), Some(333));
}

#[test]
fn frame_rate_needs_time_to_pass() {
    let at = FrameTime { secs: 5, nanos: 5 };
    assert_eq!(frame_rate_millihertz(at, at), None);
    assert_eq!(frame_rate_millihertz(at, FrameTime { secs: 5, nanos: 4 }), None);
    assert_eq!(frame_rate_millihertz(at, FrameTime { secs: 5, nanos: 6 }), Some(1_000_000_000_000));
}

#[test]
fn frame_rate_at_the_end_of_time() {
    let first = FrameTime { secs: 0, nanos: 0 };
    let last = FrameTime { secs: u64::MAX, nanos: u32::MAX };
    assert_eq!(frame_rate_millihertz(first, last), Some(0));
}
