use macrdp::display::{
    first_display_step, frame_bitmap_update, frame_to_bitmap_updates, next_capture_step, step_after_avc420,
    step_after_avc444, CaptureStep, CapturedFrame, DisplayGeometry, DisplayStep, EncodeOutcome, Rect,
};

#[test]
fn test_frame_to_bitmap_updates() {
    let frame = CapturedFrame {
        width: 100,
        height: 50,
        data: vec![0u8; 100 * 50 * 4],
        stride: 400,
        timestamp_us: 0,
        dirty_rects: vec![],
    };

    let updates = frame_to_bitmap_updates(&frame, 64);
    assert_eq!(updates.len(), 2);
    assert_eq!(updates[0].x, 0);
    assert_eq!(updates[0].width, 64);
    assert_eq!(updates[1].x, 64);
    assert_eq!(updates[1].width, 36);
}

#[test]
fn test_frame_to_bitmap_updates_exact_tile() {
    let frame = CapturedFrame {
        width: 128,
        height: 64,
        data: vec![0u8; 128 * 64 * 4],
        stride: 512,
        timestamp_us: 0,
        dirty_rects: vec![],
    };

    let updates = frame_to_bitmap_updates(&frame, 64);
    assert_eq!(updates.len(), 2);
}

#[test]
fn widest_frame_for_a_tile_size() {
    // 65472 + 64 - 1 == 65535: the last column of tiles still fits.
    let frame = CapturedFrame {
        width: 65472,
        height: 1,
        data: vec![0u8; 65472 * 4],
        stride: 65472 * 4,
        timestamp_us: 0,
        dirty_rects: vec![],
    };
    let tiles = frame_to_bitmap_updates(&frame, 64);
    assert_eq!(tiles.len(), 1023);
    let last = &tiles[1022];
    assert_eq!((last.x, last.y, last.width, last.height), (65408, 0, 64, 1));
}

#[test]
fn tiles_carry_their_pixels() {
    // 3x2 frame, tile size 2: tiles (0,0) 2x2 and (2,0) 1x2.
    let data: Vec<u8> = (0..24u8).collect();
    let frame = CapturedFrame { width: 3, height: 2, data, stride: 12, timestamp_us: 0, dirty_rects: vec![] };
    let tiles = frame_to_bitmap_updates(&frame, 2);
    assert_eq!(tiles.len(), 2);
    assert_eq!((tiles[0].x, tiles[0].y, tiles[0].width, tiles[0].height, tiles[0].stride), (0, 0, 2, 2, 8));
    assert_eq!(tiles[0].data, vec![0, 1, 2, 3, 4, 5, 6, 7, 12, 13, 14, 15, 16, 17, 18, 19]);
    assert_eq!((tiles[1].x, tiles[1].width, tiles[1].stride), (2, 1, 4));
    assert_eq!(tiles[1].data, vec![8, 9, 10, 11, 20, 21, 22, 23]);
}

#[test]
fn dirty_rects_give_their_bounding_box() {
    let data: Vec<u8> = (0..64u8).collect(); // 4x4 frame
    let frame = CapturedFrame {
        width: 4,
        height: 4,
        data,
        stride: 16,
        timestamp_us: 0,
        dirty_rects: vec![Rect { x: 1, y: 1, width: 1, height: 1 }, Rect { x: 2, y: 2, width: 5, height: 1 }],
    };
    let tile = frame_bitmap_update(frame).unwrap();
    // box x 1..4 (clamped from 7), y 1..3
    assert_eq!((tile.x, tile.y, tile.width, tile.height, tile.stride), (1, 1, 3, 2, 12));
    assert_eq!(tile.data, vec![20, 21, 22, 23, 24, 25, 26, 27, 28, 29, 30, 31, 36, 37, 38, 39, 40, 41, 42, 43, 44, 45, 46, 47]);
}

#[test]
fn without_dirty_rects_the_whole_frame_goes() {
    let frame = CapturedFrame { width: 2, height: 1, data: vec![9u8; 8], stride: 8, timestamp_us: 5, dirty_rects: vec![] };
    let tile = frame_bitmap_update(frame).unwrap();
    assert_eq!((tile.x, tile.y, tile.width, tile.height, tile.stride), (0, 0, 2, 1, 8));
    assert_eq!(tile.data, vec![9u8; 8]);
    let empty = CapturedFrame { width: 0, height: 1, data: vec![], stride: 0, timestamp_us: 0, dirty_rects: vec![] };
    assert!(frame_bitmap_update(empty).is_none());
}

#[test]
fn display_steps() {
    assert!(first_display_step(true, true, true, true, true, true) == DisplayStep::EncodeAvc444);
    assert!(first_display_step(true, true, true, true, false, true) == DisplayStep::EncodeAvc420);
    assert!(first_display_step(false, true, true, true, true, true) == DisplayStep::SendDefaultPointer);
    assert!(first_display_step(true, false, false, false, false, false) == DisplayStep::SendBitmap);
    assert!(step_after_avc444(EncodeOutcome::Failed) == DisplayStep::EncodeAvc420);
    assert!(step_after_avc444(EncodeOutcome::Empty) == DisplayStep::SendDefaultPointer);
    assert!(step_after_avc420(EncodeOutcome::Failed) == DisplayStep::SendBitmap);
    assert!(step_after_avc420(EncodeOutcome::Encoded) == DisplayStep::SendGfxFrame);
}

#[test]
fn resize_requests() {
    let mut g = DisplayGeometry::new(1920, 1080, false);
    assert!(g.request_resize(1280, 720));
    assert_eq!((g.width, g.height), (1280, 720));
    assert!(!g.request_resize(1280, 720));
    assert!(g.request_resize(4000, 3000));
    assert_eq!((g.width, g.height), (1920, 1080));
    assert!(!g.request_resize(0, 500));
    let mut fixed = DisplayGeometry::new(1920, 1080, true);
    assert!(!fixed.request_resize(800, 600));
    assert_eq!((fixed.width, fixed.height), (1920, 1080));
}

#[test]
fn capture_loop_steps() {
    let s = next_capture_step(CaptureStep::AwaitFrame, true);
    assert_eq!(s, CaptureStep::TryNewer);
    assert_eq!(next_capture_step(s, true), CaptureStep::AwaitFrame);
    assert_eq!(next_capture_step(s, false), CaptureStep::EncodeCaptured);
    assert_eq!(next_capture_step(CaptureStep::AwaitFrame, false), CaptureStep::RestartStream);
    assert_eq!(next_capture_step(CaptureStep::RestartStream, false), CaptureStep::CaptureFallback);
    assert_eq!(next_capture_step(CaptureStep::CaptureFallback, false), CaptureStep::Sleep);
    assert_eq!(next_capture_step(CaptureStep::Sleep, false), CaptureStep::RestartStream);
    assert_eq!(next_capture_step(CaptureStep::CaptureFallback, true), CaptureStep::EncodeFallback);
    assert_eq!(next_capture_step(CaptureStep::RestartStream, true), CaptureStep::AwaitFrame);
}
