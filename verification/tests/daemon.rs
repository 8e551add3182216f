//! Daemon socket paths and request ids.

use rttx::daemon::{daemon_binary, next_raw_frame, socket_path_for, FrameStep, RequestIdGenerator};

#[test]
fn socket_path_for_production_uses_production_daemon_dir() {
    let path = socket_path_for("/tmp/runtime", false);
    assert_eq!(path, "/tmp/runtime/rttx-server/v1/rttx-server.sock");
}

#[test]
fn socket_path_for_dev_uses_development_daemon_dir() {
    let path = socket_path_for("/tmp/runtime", true);
    assert_eq!(path, "/tmp/runtime/rttx-server-devel/v1/rttx-server.sock");
}

#[test]
fn request_id_generator_never_returns_zero() {
    let mut id_gen = RequestIdGenerator::new();
    for _ in 0..1000 {
        assert_ne!(id_gen.next_id(), 0, "request_id must never be zero (reserved for push events)");
    }
}

#[test]
fn request_ids_increase_from_one() {
    let mut id_gen = RequestIdGenerator::new();
    assert_eq!(id_gen.next_id(), 1);
    assert_eq!(id_gen.next_id(), 2);
}

#[test]
fn daemon_binary_is_named() {
    assert!(!daemon_binary().is_empty());
}

#[test]
fn raw_frame_needs_length_prefix_and_payload() {
    assert_eq!(next_raw_frame(&[], 1024), FrameStep::NeedMore);
    assert_eq!(next_raw_frame(&[3, 0, 0], 1024), FrameStep::NeedMore);
    assert_eq!(next_raw_frame(&[3, 0, 0, 0, 1, 2], 1024), FrameStep::NeedMore);
    assert_eq!(next_raw_frame(&[3, 0, 0, 0, 1, 2, 3, 9], 1024), FrameStep::Complete(7));
    assert_eq!(next_raw_frame(&[0, 0, 0, 0], 1024), FrameStep::Complete(4));
    assert_eq!(next_raw_frame(&[1, 4, 0, 0], 1024), FrameStep::TooLarge(1025));
    assert_eq!(next_raw_frame(&[0xff, 0xff, 0xff, 0xff], u32::MAX), FrameStep::NeedMore);
}
