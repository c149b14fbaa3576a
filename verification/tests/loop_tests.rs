use termvid::geometry::{grid_size, ScaleError};
use termvid::pace::sleep_ns;
use termvid::player::{step, PlayerError, PlayerEvent, PlayerState};

#[test]
fn grid_width_is_rounded_aspect_correction() {
    // width = round(rows * (src_w / src_h) * 13 / 5)
    // 40 rows of 1920x1080: round(998400 / 5400) = round(184.888) = 185.
    assert_eq!(grid_size(40, 1920, 1080), Ok((185, 40)));
    // A square source on 10 rows: round(10 * 13 / 5) = 26.
    assert_eq!(grid_size(10, 100, 100), Ok((26, 10)));
    // Rounding goes to the nearest integer: 7 rows of 4:3 is
    // round(7 * 4 / 3 * 13 / 5) = round(24.266) = 24.
    assert_eq!(grid_size(7, 4, 3), Ok((24, 7)));
}

#[test]
fn grid_size_rejects_non_positive_dimensions() {
    assert_eq!(grid_size(0, 1920, 1080), Err(ScaleError));
    assert_eq!(grid_size(40, 0, 1080), Err(ScaleError));
    assert_eq!(grid_size(40, 1920, 0), Err(ScaleError));
    // So narrow that the width rounds down to nothing.
    assert_eq!(grid_size(1, 1, 1000000), Err(ScaleError));
}

#[test]
fn early_frames_are_padded_to_the_target_interval() {
    let elapsed: u64 = 10_000_000;
    let target: u64 = 40_000_000;
    let pad = sleep_ns(elapsed, target);
    assert_eq!(pad, 30_000_000);
    assert!(elapsed + pad >= target);
}

#[test]
fn late_frames_are_never_padded() {
    assert_eq!(sleep_ns(40_000_000, 40_000_000), 0);
    assert_eq!(sleep_ns(90_000_000, 40_000_000), 0);
}

#[test]
fn end_of_stream_drains_and_stops_cleanly() {
    let playing = step(PlayerState::Opening, PlayerEvent::Opened);
    assert!(matches!(playing, PlayerState::Playing));
    assert!(playing.wants_frame());

    let draining = step(playing, PlayerEvent::EndOfStream);
    assert!(matches!(draining, PlayerState::Draining));
    // From the moment the end of the stream is seen, no frame is requested.
    assert!(!draining.wants_frame());

    let stopped = step(draining, PlayerEvent::Drained);
    assert!(matches!(stopped, PlayerState::Stopped { error: None }));
    assert!(!stopped.wants_frame());
    assert_eq!(stopped.exit_code(), Some(0));

    // A stopped player stays stopped and keeps its status.
    let after = step(stopped, PlayerEvent::FrameRendered);
    assert_eq!(after.exit_code(), Some(0));
}

#[test]
fn mid_stream_failure_stops_with_nonzero_status() {
    let failed = step(
        PlayerState::Playing,
        PlayerEvent::Failed(PlayerError::Decode(String::from("bad packet"))),
    );
    assert!(matches!(failed, PlayerState::Stopped { error: Some(PlayerError::Decode(_)) }));
    assert!(!failed.wants_frame());
    assert_eq!(failed.exit_code(), Some(1));
}
