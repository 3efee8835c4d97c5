use keycap::overlay::{color_parsable, copy_frame, parse_rgb, FrameActions, Visibility};

#[test]
fn visibility_starts_hidden() {
    let v = Visibility::new();
    assert!(!v.showing);
    assert!(!v.needs_hide);
}

#[test]
fn content_shows_and_redraws() {
    let mut v = Visibility::new();
    let a = v.step(false, true);
    assert_eq!(a, FrameActions { set_visible: Some(true), request_redraw: true });
    assert!(v.showing);
    let b = v.step(false, true);
    assert_eq!(b, FrameActions { set_visible: None, request_redraw: true });
}

#[test]
fn empty_overlay_fades_one_frame_then_hides() {
    let mut v = Visibility::new();
    v.step(false, true);
    let a = v.step(false, false);
    assert_eq!(a, FrameActions { set_visible: None, request_redraw: true });
    assert!(v.showing && v.needs_hide);
    let b = v.step(false, false);
    assert_eq!(b, FrameActions { set_visible: Some(false), request_redraw: false });
    assert!(!v.showing && !v.needs_hide);
    let c = v.step(false, false);
    assert_eq!(c, FrameActions { set_visible: None, request_redraw: false });
}

#[test]
fn content_returning_cancels_pending_hide() {
    let mut v = Visibility::new();
    v.step(false, true);
    v.step(false, false);
    let a = v.step(false, true);
    assert_eq!(a, FrameActions { set_visible: None, request_redraw: true });
    assert!(v.showing && !v.needs_hide);
}

#[test]
fn tray_hidden_hides_window() {
    let mut v = Visibility::new();
    v.step(false, true);
    let a = v.step(true, true);
    assert_eq!(a, FrameActions { set_visible: Some(false), request_redraw: false });
    assert!(!v.showing);
    let b = v.step(true, true);
    assert_eq!(b, FrameActions { set_visible: None, request_redraw: false });
}

#[test]
fn parse_rgb_reads_hex_channels() {
    assert_eq!(parse_rgb("#ff8000"), (255, 128, 0));
    assert_eq!(parse_rgb("#00000080"), (0, 0, 0));
    assert_eq!(parse_rgb("ABCdef"), (0xab, 0xcd, 0xef));
    assert_eq!(parse_rgb("##102030"), (0x10, 0x20, 0x30));
}

#[test]
fn parse_rgb_bad_channels_read_255() {
    assert_eq!(parse_rgb("#zz0000"), (255, 0, 0));
    assert_eq!(parse_rgb("#00-100"), (0, 255, 0));
    assert_eq!(parse_rgb("#0000 1"), (0, 0, 255));
}

#[test]
fn parse_rgb_accepts_plus_sign() {
    assert_eq!(parse_rgb("#+f+a+1"), (15, 10, 1));
    assert_eq!(parse_rgb("#++0000"), (255, 0, 0));
}

#[test]
fn color_parsable_needs_six_bytes_on_char_boundaries() {
    assert!(color_parsable("#ffffff"));
    assert!(color_parsable("#ffffffff"));
    assert!(!color_parsable("#fff"));
    assert!(!color_parsable(""));
    assert!(!color_parsable("#"));
    assert!(!color_parsable("#aé1234"));
    assert!(color_parsable("#éaaaa"));
    assert_eq!(parse_rgb("#éaaaa"), (255, 0xaa, 0xaa));
}

#[test]
fn copy_frame_packs_pixels_and_keeps_the_rest() {
    // A 2x1 frame into a 3x2 buffer.
    let data = [1u8, 2, 3, 4, 10, 20, 30, 40];
    let mut buf = [7u32; 6];
    copy_frame(&data, 2, 1, &mut buf, 3, 2);
    assert_eq!(buf[0], u32::from_ne_bytes([3, 2, 1, 0]));
    assert_eq!(buf[1], u32::from_ne_bytes([30, 20, 10, 0]));
    assert_eq!(&buf[2..], &[7u32, 7, 7, 7]);
    assert!(buf[0] == 0x0001_0203 || buf[0] == 0x0302_0100);
}

#[test]
fn copy_frame_clips_to_the_buffer() {
    // A 2x2 frame into a 1x1 buffer.
    let data = [9u8, 8, 7, 6, 1, 1, 1, 1, 2, 2, 2, 2, 3, 3, 3, 3];
    let mut buf = [0u32; 1];
    copy_frame(&data, 2, 2, &mut buf, 1, 1);
    assert_eq!(buf[0], u32::from_ne_bytes([7, 8, 9, 0]));
}

#[test]
fn window_visibility_follows_showing() {
    let mut v = Visibility::new();
    let mut window_visible = false;
    let frames = [(false, true), (false, false), (false, true), (true, true), (false, false), (false, true), (false, false), (false, false)];
    for (hidden, content) in frames {
        let a = v.step(hidden, content);
        if let Some(b) = a.set_visible {
            window_visible = b;
        }
        assert_eq!(window_visible, v.showing);
        assert!(!v.needs_hide || v.showing);
    }
}
