use std::borrow::Cow;

use gif::{DisposalMethod, Encoder, Frame};
use gif_probe::{probe_stream, ProbeLimits};

fn no_limits() -> ProbeLimits {
    ProbeLimits { max_duration: None, max_pixels: None, max_memory: None }
}

fn indexed_frame(
    width: u16,
    height: u16,
    delay: u16,
    dispose: DisposalMethod,
    transparent: Option<u8>,
    palette: Option<Vec<u8>>,
    pixels: Vec<u8>,
) -> Frame<'static> {
    Frame {
        delay,
        dispose,
        transparent,
        palette,
        width,
        height,
        buffer: Cow::Owned(pixels),
        ..Frame::default()
    }
}

fn encode(width: u16, height: u16, global_palette: &[u8], frames: &[Frame<'static>]) -> Vec<u8> {
    let mut bytes: Vec<u8> = Vec::new();
    {
        let mut encoder = Encoder::new(&mut bytes, width, height, global_palette).unwrap();
        for frame in frames {
            encoder.write_frame(frame).unwrap();
        }
    }
    bytes
}

fn large_animation() -> Vec<u8> {
    // A 480x270 canvas, a 256-entry global palette and 40 opaque frames
    // whose delays add up to 267 ticks: 27 frames of 7 and 13 frames of 6.
    let palette: Vec<u8> = (0u16..768).map(|i| (i % 256) as u8).collect();
    let pixels = vec![0u8; 480 * 270];
    let mut frames = Vec::new();
    for i in 0..40u16 {
        let delay = if i < 27 { 7 } else { 6 };
        frames.push(indexed_frame(
            480,
            270,
            delay,
            DisposalMethod::Keep,
            None,
            None,
            pixels.clone(),
        ));
    }
    encode(480, 270, &palette, &frames)
}

#[test]
fn probe_large_animation_reports_accumulated_totals() {
    let bytes = large_animation();
    let probe = probe_stream(bytes, &no_limits()).unwrap();
    assert!(!probe.alpha);
    assert_eq!(probe.max_colors, 256);
    assert_eq!(probe.duration, 267);
    assert_eq!(probe.frames, 40);
    assert_eq!(probe.width, 480);
    assert_eq!(probe.height, 270);
}

#[test]
fn probe_stops_at_duration_ceiling() {
    let bytes = large_animation();
    let limits = ProbeLimits { max_duration: Some(100), ..no_limits() };
    let probe = probe_stream(bytes, &limits).unwrap();
    // The scan keeps counting until the accumulated delay reaches the
    // ceiling: the fifteenth frame takes the sum to 105.
    assert!(probe.duration >= 100);
    assert!(probe.frames < 40);
    assert_eq!(probe.frames, 15);
    assert_eq!(probe.duration, 105);
    assert_eq!(probe.width, 480);
    assert_eq!(probe.height, 270);
}

#[test]
fn probe_flags_used_transparent_index() {
    // A 1x1 image whose only pixel carries the declared transparent index.
    let frame = indexed_frame(1, 1, 0, DisposalMethod::Keep, Some(0), None, vec![0]);
    let bytes = encode(1, 1, &[0, 0, 0, 255, 255, 255], &[frame]);
    let probe = probe_stream(bytes, &no_limits()).unwrap();
    assert!(probe.alpha);
    assert_eq!(probe.frames, 1);
    assert_eq!(probe.max_colors, 2);
    assert_eq!(probe.width, 1);
    assert_eq!(probe.height, 1);
}

#[test]
fn probe_ignores_declared_but_unused_transparency() {
    // The declared transparent index 1 never occurs among the pixels.
    let frame = indexed_frame(2, 2, 3, DisposalMethod::Keep, Some(1), None, vec![0, 0, 0, 0]);
    let bytes = encode(2, 2, &[0, 0, 0, 255, 255, 255], &[frame]);
    let probe = probe_stream(bytes, &no_limits()).unwrap();
    assert!(!probe.alpha);
    assert_eq!(probe.frames, 1);
    assert_eq!(probe.duration, 3);
}

#[test]
fn probe_flags_background_disposal_frame() {
    let first = indexed_frame(2, 2, 1, DisposalMethod::Keep, None, None, vec![0, 0, 0, 0]);
    let second = indexed_frame(2, 2, 1, DisposalMethod::Background, None, None, vec![0, 0, 0, 0]);
    let bytes = encode(2, 2, &[0, 0, 0, 255, 255, 255], &[first, second]);
    let probe = probe_stream(bytes, &no_limits()).unwrap();
    assert!(probe.alpha);
    assert_eq!(probe.frames, 2);
}

#[test]
fn probe_keeps_opaque_without_transparency_signals() {
    let first = indexed_frame(2, 2, 1, DisposalMethod::Keep, None, None, vec![0, 1, 0, 1]);
    let second = indexed_frame(2, 2, 1, DisposalMethod::Previous, None, None, vec![1, 1, 0, 0]);
    let bytes = encode(2, 2, &[0, 0, 0, 255, 255, 255], &[first, second]);
    let probe = probe_stream(bytes, &no_limits()).unwrap();
    assert!(!probe.alpha);
    assert_eq!(probe.frames, 2);
    assert_eq!(probe.duration, 2);
}

#[test]
fn probe_reports_local_palette_peak() {
    let local: Vec<u8> = (0u16..768).map(|i| (i % 256) as u8).collect();
    let first = indexed_frame(2, 2, 1, DisposalMethod::Keep, None, Some(local), vec![0, 0, 0, 0]);
    let second = indexed_frame(
        2,
        2,
        1,
        DisposalMethod::Keep,
        None,
        Some(vec![0, 0, 0, 1, 1, 1, 2, 2, 2, 3, 3, 3]),
        vec![0, 0, 0, 0],
    );
    let bytes = encode(2, 2, &[0, 0, 0, 255, 255, 255], &[first, second]);
    let probe = probe_stream(bytes, &no_limits()).unwrap();
    assert_eq!(probe.max_colors, 256);
}

#[test]
fn probe_rejects_oversized_canvas() {
    let bytes = large_animation();
    let limits = ProbeLimits { max_pixels: Some(100_000), ..no_limits() };
    let err = probe_stream(bytes, &limits).unwrap_err();
    assert!(err.is_image_too_large());
}

#[test]
fn probe_accepts_canvas_at_pixel_cap() {
    let bytes = large_animation();
    let limits = ProbeLimits { max_pixels: Some(480 * 270), ..no_limits() };
    let probe = probe_stream(bytes, &limits).unwrap();
    assert_eq!(probe.frames, 40);
}

#[test]
fn probe_fails_on_garbage_bytes() {
    let err = probe_stream(b"not a gif at all".to_vec(), &no_limits()).unwrap_err();
    assert!(err.is_decode());
}

#[test]
fn probe_fails_on_truncated_stream() {
    let frame = indexed_frame(2, 2, 1, DisposalMethod::Keep, None, None, vec![0, 0, 0, 0]);
    let mut bytes = encode(2, 2, &[0, 0, 0, 255, 255, 255], &[frame]);
    // Dropping the trailer leaves the stream ending mid-file.
    bytes.pop();
    let err = probe_stream(bytes, &no_limits()).unwrap_err();
    assert!(err.is_decode());
}

#[test]
fn probe_respects_memory_limit() {
    let frame = indexed_frame(100, 100, 1, DisposalMethod::Keep, None, None, vec![0; 10_000]);
    let bytes = encode(100, 100, &[0, 0, 0, 255, 255, 255], &[frame]);
    let limits = ProbeLimits { max_memory: Some(1), ..no_limits() };
    let err = probe_stream(bytes, &limits).unwrap_err();
    assert!(err.is_decode());
}

#[test]
fn probe_counts_each_visited_frame() {
    let palette = &[0, 0, 0, 255, 255, 255];
    let frames: Vec<Frame<'static>> = [1u16, 2, 3]
        .iter()
        .map(|&d| indexed_frame(2, 2, d, DisposalMethod::Keep, None, None, vec![0, 0, 0, 0]))
        .collect();
    let bytes = encode(2, 2, palette, &frames);
    let probe = probe_stream(bytes, &no_limits()).unwrap();
    assert_eq!(probe.duration, 6);
    assert_eq!(probe.frames, 3);
}

#[test]
fn probe_ceiling_counts_crossing_frame() {
    let palette = &[0, 0, 0, 255, 255, 255];
    let frames: Vec<Frame<'static>> = [1u16, 2, 3]
        .iter()
        .map(|&d| indexed_frame(2, 2, d, DisposalMethod::Keep, None, None, vec![0, 0, 0, 0]))
        .collect();
    let bytes = encode(2, 2, palette, &frames);
    let limits = ProbeLimits { max_duration: Some(3), ..no_limits() };
    let probe = probe_stream(bytes, &limits).unwrap();
    // The second frame takes the sum to 3, which reaches the ceiling; the
    // third frame is never touched.
    assert_eq!(probe.frames, 2);
    assert_eq!(probe.duration, 3);
}

#[test]
fn probe_ceiling_covers_first_frame() {
    let palette = &[0, 0, 0, 255, 255, 255];
    let frames: Vec<Frame<'static>> = [5u16, 1, 1]
        .iter()
        .map(|&d| indexed_frame(2, 2, d, DisposalMethod::Keep, None, None, vec![0, 0, 0, 0]))
        .collect();
    let bytes = encode(2, 2, palette, &frames);
    let limits = ProbeLimits { max_duration: Some(4), ..no_limits() };
    let probe = probe_stream(bytes, &limits).unwrap();
    // The first frame alone reaches the ceiling, so no later frame is read.
    assert_eq!(probe.frames, 1);
    assert_eq!(probe.duration, 5);
}

#[test]
fn probe_empty_stream_reports_zero_frames() {
    // A bare logical screen descriptor with no colour table and no frames.
    // The decoder wants one byte of lookahead after the header to reach the
    // trailer, so a padding byte follows it.
    let bytes = vec![
        b'G', b'I', b'F', b'8', b'9', b'a', 7, 0, 9, 0, 0, 0, 0, 0x3B, 0,
    ];
    let probe = probe_stream(bytes, &no_limits()).unwrap();
    assert_eq!(probe.frames, 0);
    assert_eq!(probe.duration, 0);
    assert!(!probe.alpha);
    assert_eq!(probe.max_colors, 0);
    assert_eq!(probe.width, 7);
    assert_eq!(probe.height, 9);
}
