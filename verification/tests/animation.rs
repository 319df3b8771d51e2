use ponyview::decode::{decode, DecodeError};
use ponyview::paintable::{RenderPlan, SmartPaintable};

fn png_bytes(width: u32, height: u32, pixel: [u8; 4]) -> Vec<u8> {
    let img = image::RgbaImage::from_pixel(width, height, image::Rgba(pixel));
    let mut out = std::io::Cursor::new(Vec::new());
    image::DynamicImage::ImageRgba8(img)
        .write_to(&mut out, image::ImageFormat::Png)
        .unwrap();
    out.into_inner()
}

fn gif_bytes(frames: &[(u32, [u8; 4])]) -> Vec<u8> {
    let mut data = Vec::new();
    {
        let mut enc = image::codecs::gif::GifEncoder::new(&mut data);
        enc.set_repeat(image::codecs::gif::Repeat::Infinite).unwrap();
        for (delay_ms, pixel) in frames {
            let buf = image::RgbaImage::from_pixel(4, 4, image::Rgba(*pixel));
            let frame = image::Frame::from_parts(
                buf,
                0,
                0,
                image::Delay::from_numer_denom_ms(*delay_ms, 1),
            );
            enc.encode_frame(frame).unwrap();
        }
    }
    data
}

#[test]
fn decode_still_yields_one_frame_with_zero_duration() {
    let bytes = png_bytes(3, 2, [255, 0, 0, 255]);
    let fs = decode(&bytes, "png").unwrap();
    assert_eq!(fs.frames.len(), 1);
    assert_eq!(fs.frames[0].width, 3);
    assert_eq!(fs.frames[0].height, 2);
    assert_eq!(fs.frames[0].duration_ms, 0);
    assert_eq!(fs.frames[0].rgba.len(), 24);
    assert_eq!(&fs.frames[0].rgba[0..4], &[255, 0, 0, 255]);
}

#[test]
fn decode_animated_yields_all_frames_with_declared_durations() {
    let bytes = gif_bytes(&[(100, [255, 0, 0, 255]), (200, [0, 255, 0, 255])]);
    let fs = decode(&bytes, "gif").unwrap();
    assert_eq!(fs.frames.len(), 2);
    assert_eq!(fs.frames[0].duration_ms, 100);
    assert_eq!(fs.frames[1].duration_ms, 200);
    assert_eq!(fs.frames[0].width, 4);
    assert_eq!(fs.frames[0].height, 4);
}

#[test]
fn decode_rejects_unknown_extension() {
    let bytes = png_bytes(2, 2, [0, 0, 255, 255]);
    assert_eq!(decode(&bytes, "xyz").unwrap_err(), DecodeError::UnrecognizedFormat);
}

#[test]
fn decode_rejects_malformed_still() {
    let bytes: Vec<u8> = vec![1, 2, 3, 4, 5];
    assert_eq!(decode(&bytes, "png").unwrap_err(), DecodeError::Malformed);
}

#[test]
fn decode_rejects_malformed_animation() {
    let bytes: Vec<u8> = vec![9, 9, 9, 9];
    assert_eq!(decode(&bytes, "gif").unwrap_err(), DecodeError::Malformed);
}

#[test]
fn decode_rejects_content_not_matching_hint() {
    let bytes = png_bytes(2, 2, [0, 0, 255, 255]);
    assert_eq!(decode(&bytes, "jpeg").unwrap_err(), DecodeError::Malformed);
}

#[test]
fn load_publishes_first_frame() {
    let bytes = png_bytes(3, 2, [9, 9, 9, 255]);
    let mut p = SmartPaintable::new();
    let arm = p.load_from_bytes(&bytes, "png").unwrap();
    assert!(arm.is_none());
    assert_eq!(p.intrinsic_width(), 3);
    assert_eq!(p.intrinsic_height(), 2);
    match p.render_plan() {
        RenderPlan::Shown { idx, angle, flip_horizontal } => {
            assert_eq!(idx, 0);
            assert_eq!(angle, 0);
            assert!(!flip_horizontal);
        }
        RenderPlan::Placeholder => panic!("expected a published frame"),
    }
}

#[test]
fn failed_load_renders_placeholder() {
    let mut p = SmartPaintable::default();
    let err = p.load_from_bytes(&vec![0, 1, 2], "png").unwrap_err();
    assert_eq!(err, DecodeError::Malformed);
    assert_eq!(p.intrinsic_width(), -1);
    assert_eq!(p.intrinsic_height(), -1);
    assert!(matches!(p.render_plan(), RenderPlan::Placeholder));
}

fn shown_idx(p: &SmartPaintable) -> usize {
    match p.render_plan() {
        RenderPlan::Shown { idx, .. } => idx,
        RenderPlan::Placeholder => panic!("expected a published frame"),
    }
}

#[test]
fn animation_ticks_cycle_through_frames() {
    let bytes = gif_bytes(&[
        (100, [255, 0, 0, 255]),
        (100, [0, 255, 0, 255]),
        (100, [0, 0, 255, 255]),
    ]);
    let mut p = SmartPaintable::new();
    // Playback starts disabled: the load publishes the first frame and arms
    // nothing.
    assert!(p.load_from_bytes(&bytes, "gif").unwrap().is_none());
    assert_eq!(shown_idx(&p), 0);
    let arm = p.resume().expect("resume mid-animation must arm a timer");
    assert_eq!(shown_idx(&p), 1);
    let arm = p.on_timeout(arm.generation).expect("tick must re-arm");
    assert_eq!(shown_idx(&p), 2);
    let arm = p.on_timeout(arm.generation).expect("tick must re-arm");
    assert_eq!(shown_idx(&p), 0);
    assert_eq!(arm.delay_ms, 100);
}

#[test]
fn pause_then_resume_advances_exactly_one_frame() {
    let bytes = gif_bytes(&[
        (100, [1, 0, 0, 255]),
        (100, [2, 0, 0, 255]),
        (100, [3, 0, 0, 255]),
    ]);
    let mut p = SmartPaintable::new();
    p.load_from_bytes(&bytes, "gif").unwrap();
    let arm = p.resume().unwrap();
    let before = shown_idx(&p);
    p.pause();
    // The already-armed timer fires, but the pause suppresses the advance.
    assert!(p.on_timeout(arm.generation).is_none());
    assert_eq!(shown_idx(&p), before);
    // Resuming shows exactly the successor frame, no skip and no repeat.
    p.resume().unwrap();
    assert_eq!(shown_idx(&p), (before + 1) % 3);
}

#[test]
fn resume_while_timer_pending_arms_no_second_timer() {
    let bytes = gif_bytes(&[(50, [1, 1, 1, 255]), (50, [2, 2, 2, 255])]);
    let mut p = SmartPaintable::new();
    p.load_from_bytes(&bytes, "gif").unwrap();
    let _arm = p.resume().unwrap();
    assert!(p.resume().is_none());
    assert!(p.is_playing());
}

#[test]
fn stale_timer_after_unload_is_ignored() {
    let bytes = gif_bytes(&[(50, [5, 5, 5, 255]), (50, [6, 6, 6, 255])]);
    let mut p = SmartPaintable::new();
    p.load_from_bytes(&bytes, "gif").unwrap();
    let arm = p.resume().unwrap();
    p.unload();
    // The pending callback fires after the paintable was discarded: it must
    // do nothing and schedule nothing.
    assert!(p.on_timeout(arm.generation).is_none());
    assert!(matches!(p.render_plan(), RenderPlan::Placeholder));
    assert_eq!(p.intrinsic_width(), -1);
}

#[test]
fn stale_timer_after_reload_is_ignored() {
    let gif = gif_bytes(&[(50, [5, 5, 5, 255]), (50, [6, 6, 6, 255])]);
    let png = png_bytes(7, 7, [8, 8, 8, 255]);
    let mut p = SmartPaintable::new();
    p.load_from_bytes(&gif, "gif").unwrap();
    let arm = p.resume().unwrap();
    p.load_from_bytes(&png, "png").unwrap();
    let shown = shown_idx(&p);
    assert!(p.on_timeout(arm.generation).is_none());
    assert_eq!(shown_idx(&p), shown);
    assert_eq!(p.intrinsic_width(), 7);
}

#[test]
fn four_quarter_turns_restore_orientation() {
    let bytes = png_bytes(2, 2, [1, 2, 3, 255]);
    let mut p = SmartPaintable::new();
    p.load_from_bytes(&bytes, "png").unwrap();
    // The caller accumulates: rotating by 90 four times in a row.
    let mut total: i32 = 0;
    for _ in 0..4 {
        total += 90;
        p.rotate(total);
    }
    match p.render_plan() {
        RenderPlan::Shown { angle, .. } => assert_eq!(angle, 0),
        RenderPlan::Placeholder => panic!("expected a published frame"),
    }
}

#[test]
fn rotation_angle_wraps_for_rendering() {
    let bytes = png_bytes(2, 2, [1, 2, 3, 255]);
    let mut p = SmartPaintable::new();
    p.load_from_bytes(&bytes, "png").unwrap();
    p.rotate(450);
    match p.render_plan() {
        RenderPlan::Shown { angle, .. } => assert_eq!(angle, 90),
        RenderPlan::Placeholder => panic!("expected a published frame"),
    }
    p.rotate(-90);
    match p.render_plan() {
        RenderPlan::Shown { angle, .. } => assert_eq!(angle, 270),
        RenderPlan::Placeholder => panic!("expected a published frame"),
    }
}

#[test]
fn flip_is_a_rendering_hint_only() {
    let bytes = png_bytes(2, 2, [4, 5, 6, 255]);
    let mut p = SmartPaintable::new();
    p.load_from_bytes(&bytes, "png").unwrap();
    let pixels_before = p.published_frame().unwrap().rgba.clone();
    p.flip(true);
    match p.render_plan() {
        RenderPlan::Shown { flip_horizontal, .. } => assert!(flip_horizontal),
        RenderPlan::Placeholder => panic!("expected a published frame"),
    }
    assert_eq!(p.published_frame().unwrap().rgba, pixels_before);
}

#[test]
fn restart_rewinds_to_first_frame_on_next_tick() {
    let bytes = gif_bytes(&[(50, [1, 0, 0, 255]), (50, [2, 0, 0, 255])]);
    let mut p = SmartPaintable::new();
    p.load_from_bytes(&bytes, "gif").unwrap();
    let arm = p.resume().unwrap();
    assert_eq!(shown_idx(&p), 1);
    p.restart();
    let _ = p.on_timeout(arm.generation).unwrap();
    assert_eq!(shown_idx(&p), 0);
}

#[test]
fn pause_and_is_playing_report_state() {
    let mut p = SmartPaintable::new();
    assert!(!p.is_playing());
    p.resume();
    assert!(p.is_playing());
    p.pause();
    assert!(!p.is_playing());
}
