//! The overlay window: when it is shown and hidden, how configured colours
//! are read, and how a rendered frame reaches the presentation buffer.
use vstd::prelude::*;
use vstd::string::StringSliceAdditionalSpecFns;
use vstd::utf8::is_continuation_byte;

verus! {

// ─── Show / hide between frames ───────────────────────────

/// The window's visibility bookkeeping between frames: whether it is shown,
/// and whether the last frame already drew the fade-out of an empty overlay.
#[derive(Debug, Clone, Copy, PartialEq, Eq, Structural)]
pub struct Visibility {
    pub showing: bool,
    pub needs_hide: bool,
}

/// What the event loop does to the window after deciding a frame: change
/// its visibility (where `Some`), and whether to ask for a redraw.
#[derive(Debug, Clone, Copy, PartialEq, Eq, Structural)]
pub struct FrameActions {
    pub set_visible: Option<bool>,
    pub request_redraw: bool,
}

/// No change to the window.
pub open spec fn no_actions() -> FrameActions {
    FrameActions { set_visible: None, request_redraw: false }
}

/// One frame's decision. A hidden tray hides a shown window. Otherwise, with
/// something to show, the window is shown and redrawn; with nothing to show,
/// a shown window is redrawn once more (for the fade-out) and hidden on the
/// frame after.
pub open spec fn frame_step(v: Visibility, tray_hidden: bool, has_content: bool) -> (Visibility, FrameActions) {
    if tray_hidden {
        if v.showing {
            (
                Visibility { showing: false, needs_hide: false },
                FrameActions { set_visible: Some(false), request_redraw: false },
            )
        } else {
            (v, no_actions())
        }
    } else if has_content {
        (
            Visibility { showing: true, needs_hide: false },
            FrameActions { set_visible: if v.showing { None } else { Some(true) }, request_redraw: true },
        )
    } else if v.showing {
        if v.needs_hide {
            (
                Visibility { showing: false, needs_hide: false },
                FrameActions { set_visible: Some(false), request_redraw: false },
            )
        } else {
            (Visibility { showing: true, needs_hide: true }, FrameActions { set_visible: None, request_redraw: true })
        }
    } else {
        (v, no_actions())
    }
}

impl Visibility {
    /// The state before the first frame: not shown.
    pub fn new() -> (r: Self)
        ensures
            !r.showing,
            !r.needs_hide,
    {
        Visibility { showing: false, needs_hide: false }
    }

    /// Decide one frame, given whether the tray has hidden the overlay and
    /// whether any label is visible.
    pub fn step(&mut self, tray_hidden: bool, has_content: bool) -> (r: FrameActions)
        ensures
            (*final(self), r) == frame_step(*old(self), tray_hidden, has_content),
    {
        if tray_hidden {
            if self.showing {
                self.showing = false;
                self.needs_hide = false;
                return FrameActions { set_visible: Some(false), request_redraw: false };
            }
            return FrameActions { set_visible: None, request_redraw: false };
        }
        if has_content {
            self.needs_hide = false;
            let set_visible = if !self.showing {
                self.showing = true;
                Some(true)
            } else {
                None
            };
            FrameActions { set_visible, request_redraw: true }
        } else if self.showing {
            // Redraw one frame for fade-out, then hide
            if self.needs_hide {
                self.showing = false;
                self.needs_hide = false;
                FrameActions { set_visible: Some(false), request_redraw: false }
            } else {
                self.needs_hide = true;
                FrameActions { set_visible: None, request_redraw: true }
            }
        } else {
            FrameActions { set_visible: None, request_redraw: false }
        }
    }
}

/// A window is only marked for hiding while it is shown: every step keeps
/// `needs_hide ==> showing`.
pub proof fn lemma_needs_hide_only_while_showing(v: Visibility, tray_hidden: bool, has_content: bool)
    requires
        v.needs_hide ==> v.showing,
    ensures
        frame_step(v, tray_hidden, has_content).0.needs_hide ==> frame_step(v, tray_hidden, has_content).0.showing,
{
}

/// When the tray hides the overlay, the window is not shown after the
/// frame, and nothing is drawn.
pub proof fn lemma_tray_hidden_hides(v: Visibility, has_content: bool)
    ensures
        !frame_step(v, true, has_content).0.showing,
        !frame_step(v, true, has_content).1.request_redraw,
{
}

/// With something to show and the tray not hiding it, the window is shown
/// and redrawn.
pub proof fn lemma_content_is_shown(v: Visibility)
    ensures
        frame_step(v, false, true).0.showing,
        frame_step(v, false, true).1.request_redraw,
        frame_step(v, false, true).1.set_visible == (if v.showing {
            None
        } else {
            Some(true)
        }),
{
}

/// A shown window with nothing left to show gets one more redraw (the
/// fade-out frame) and is hidden on the next empty frame.
pub proof fn lemma_fade_out_then_hide(v: Visibility)
    requires
        v.showing,
        !v.needs_hide,
    ensures
        ({
            let (v1, a1) = frame_step(v, false, false);
            let (v2, a2) = frame_step(v1, false, false);
            &&& v1.showing && a1.request_redraw && a1.set_visible is None
            &&& !v2.showing && !a2.request_redraw && a2.set_visible == Some(false)
        }),
{
}

/// The window's actual visibility follows `showing`: if it matched before
/// a frame, applying the frame's `set_visible` keeps it matched.
pub proof fn lemma_window_follows_showing(v: Visibility, window_visible: bool, tray_hidden: bool, has_content: bool)
    requires
        window_visible == v.showing,
    ensures
        ({
            let (v1, a) = frame_step(v, tray_hidden, has_content);
            let visible_after = match a.set_visible {
                Some(b) => b,
                None => window_visible,
            };
            visible_after == v1.showing
        }),
{
}

// ─── Colours ──────────────────────────────────────────────

/// The number of `#` bytes that a byte string starts with.
pub open spec fn leading_hashes(b: Seq<u8>) -> nat
    decreases b.len(),
{
    if b.len() > 0 && b[0] == 35 {
        1 + leading_hashes(b.subrange(1, b.len() as int))
    } else {
        0
    }
}

/// The bytes of a colour after its leading `#` characters.
pub open spec fn hex_part(s: &str) -> Seq<u8> {
    s.spec_bytes().skip(leading_hashes(s.spec_bytes()) as int)
}

/// Whether byte index `i` of `h` starts a character or ends the string.
pub open spec fn starts_char(h: Seq<u8>, i: int) -> bool {
    i == h.len() || (0 <= i < h.len() && !is_continuation_byte(h[i]))
}

/// Whether the three two-byte channel fields can be cut out of the colour:
/// at least six bytes after the `#`s, with characters starting (or the text
/// ending) at byte 2, 4 and 6.
pub open spec fn color_fields_present(s: &str) -> bool {
    let h = hex_part(s);
    &&& h.len() >= 6
    &&& starts_char(h, 2)
    &&& starts_char(h, 4)
    &&& starts_char(h, 6)
}

/// The value of a hexadecimal digit (either case).
pub open spec fn hex_digit_value(b: u8) -> Option<u8> {
    if 48 <= b <= 57 {
        Some((b - 48) as u8)
    } else if 97 <= b <= 102 {
        Some((b - 87) as u8)
    } else if 65 <= b <= 70 {
        Some((b - 55) as u8)
    } else {
        None
    }
}

/// Two bytes read as a base-16 number: an optional `+` sign followed by
/// digits; anything else is not a number.
pub open spec fn hex_pair_value(a: u8, b: u8) -> Option<u8> {
    if a == 43 {
        hex_digit_value(b)
    } else {
        match (hex_digit_value(a), hex_digit_value(b)) {
            (Some(x), Some(y)) => Some((16 * x + y) as u8),
            _ => None,
        }
    }
}

/// A colour channel: the two bytes at `i` as a base-16 number, or 255
/// where they are not one.
pub open spec fn channel_at(h: Seq<u8>, i: int) -> u8 {
    match hex_pair_value(h[i], h[i + 1]) {
        Some(v) => v,
        None => 255,
    }
}

/// The red, green and blue channels of a colour written as `#rrggbb…`.
pub open spec fn rgb_of(s: &str) -> (u8, u8, u8) {
    let h = hex_part(s);
    (channel_at(h, 0), channel_at(h, 2), channel_at(h, 4))
}

/// The ASCII byte of the hexadecimal digit `d` (`0 <= d < 16`): `0`…`9`,
/// then `a`…`f` in lower case or `A`…`F` in upper case.
pub open spec fn hex_byte(d: int, upper: bool) -> u8 {
    if d < 10 {
        (48 + d) as u8
    } else if upper {
        (55 + d) as u8
    } else {
        (87 + d) as u8
    }
}

/// Every hexadecimal digit, in either case, reads as its own value; a byte
/// reads as a digit only if it is one; and two digits read as
/// `16 * high + low`.
pub proof fn lemma_hex_digits()
    ensures
        forall|d: int, upper: bool|
            0 <= d < 16 ==> hex_digit_value(#[trigger] hex_byte(d, upper)) == Some(d as u8),
        forall|b: u8|
            (#[trigger] hex_digit_value(b)) is Some ==> exists|d: int, upper: bool|
                0 <= d < 16 && b == #[trigger] hex_byte(d, upper),
        forall|h: int, l: int, uh: bool, ul: bool|
            0 <= h < 16 && 0 <= l < 16 ==> hex_pair_value(
                #[trigger] hex_byte(h, uh),
                #[trigger] hex_byte(l, ul),
            ) == Some((16 * h + l) as u8),
{
    assert forall|b: u8| (#[trigger] hex_digit_value(b)) is Some implies exists|d: int, upper: bool|
        0 <= d < 16 && b == #[trigger] hex_byte(d, upper) by {
        if 48 <= b <= 57 {
            assert(b == hex_byte(b - 48, false));
        } else if 97 <= b <= 102 {
            assert(b == hex_byte(b - 87, false));
        } else {
            assert(b == hex_byte(b - 55, true));
        }
    }
}

/// A colour written `#` and six hexadecimal digits (either case) reads as
/// the three two-digit numbers: `16 * high + low` for each channel.
pub proof fn lemma_rgb_of_hex_colour(s: &str, v: Seq<int>, upper: Seq<bool>)
    requires
        v.len() == 6,
        upper.len() == 6,
        forall|i: int| 0 <= i < 6 ==> 0 <= #[trigger] v[i] < 16,
        s.spec_bytes().len() == 7,
        s.spec_bytes()[0] == 35,
        forall|i: int| 0 <= i < 6 ==> s.spec_bytes()[i + 1] == hex_byte(#[trigger] v[i], upper[i]),
    ensures
        color_fields_present(s),
        rgb_of(s) == ((16 * v[0] + v[1]) as u8, (16 * v[2] + v[3]) as u8, (16 * v[4] + v[5]) as u8),
{
    let b = s.spec_bytes();
    assert(b[1] == hex_byte(v[0], upper[0]));
    assert(b.subrange(1, b.len() as int).len() > 0);
    assert(b.subrange(1, b.len() as int)[0] == b[1]);
    assert(leading_hashes(b.subrange(1, b.len() as int)) == 0);
    let h = hex_part(s);
    assert(h =~= b.skip(1));
    assert forall|i: int| 0 <= i < 6 implies h[i] == hex_byte(#[trigger] v[i], upper[i]) by {
        assert(h[i] == b[i + 1]);
    }
    assert(h[0] == hex_byte(v[0], upper[0]));
    assert(h[1] == hex_byte(v[1], upper[1]));
    assert(h[2] == hex_byte(v[2], upper[2]));
    assert(h[3] == hex_byte(v[3], upper[3]));
    assert(h[4] == hex_byte(v[4], upper[4]));
    assert(h[5] == hex_byte(v[5], upper[5]));
}

fn hex_digit(b: u8) -> (r: Option<u8>)
    ensures
        r == hex_digit_value(b),
{
    if 48 <= b && b <= 57 {
        Some(b - 48)
    } else if 97 <= b && b <= 102 {
        Some(b - 87)
    } else if 65 <= b && b <= 70 {
        Some(b - 55)
    } else {
        None
    }
}

fn channel(h: &[u8], i: usize) -> (r: u8)
    requires
        i + 1 < h@.len(),
    ensures
        r == channel_at(h@, i as int),
{
    let a = h[i];
    let b = h[i + 1];
    let v = if a == 43 {
        hex_digit(b)
    } else {
        match (hex_digit(a), hex_digit(b)) {
            (Some(x), Some(y)) => Some(16 * x + y),
            _ => None,
        }
    };
    match v {
        Some(v) => v,
        None => 255,
    }
}

/// The bytes of `s` after its leading `#`s.
fn skip_hashes(s: &str) -> (r: &[u8])
    ensures
        r@ == hex_part(s),
{
    let b = s.as_bytes();
    let mut i: usize = 0;
    assert(b@.skip(0) =~= b@);
    while i < b.len() && b[i] == 35
        invariant
            b@ == s.spec_bytes(),
            i <= b@.len(),
            leading_hashes(b@) == i + leading_hashes(b@.skip(i as int)),
        decreases b@.len() - i,
    {
        assert(b@.skip(i as int).subrange(1, b@.skip(i as int).len() as int) =~= b@.skip(i + 1));
        i = i + 1;
    }
    vstd::slice::slice_subrange(b, i, b.len())
}

fn starts_char_at(h: &[u8], i: usize) -> (r: bool)
    requires
        i <= h@.len(),
    ensures
        r == starts_char(h@, i as int),
{
    i == h.len() || !(0x80 <= h[i] && h[i] < 0xc0)
}

/// Whether `parse_rgb` can read the colour (see `color_fields_present`).
pub fn color_parsable(s: &str) -> (r: bool)
    ensures
        r == color_fields_present(s),
{
    let h = skip_hashes(s);
    h.len() >= 6 && starts_char_at(h, 2) && starts_char_at(h, 4) && starts_char_at(h, 6)
}

/// The red, green and blue channels of a colour written `#rrggbb`: leading
/// `#`s are skipped, and a channel that is not a base-16 number reads 255.
pub fn parse_rgb(s: &str) -> (r: (u8, u8, u8))
    requires
        color_fields_present(s),
    ensures
        r == rgb_of(s),
{
    let h = skip_hashes(s);
    (channel(h, 0), channel(h, 2), channel(h, 4))
}

// ─── Frame transfer ───────────────────────────────────────

/// The word made of the bytes `b0 b1 b2 b3` (lowest address first) on a
/// little-endian machine.
pub open spec fn word_le(b0: u8, b1: u8, b2: u8, b3: u8) -> int {
    b0 + 256 * b1 + 65536 * b2 + 16777216 * b3
}

/// The word made of the bytes `b0 b1 b2 b3` (lowest address first) on a
/// big-endian machine.
pub open spec fn word_be(b0: u8, b1: u8, b2: u8, b3: u8) -> int {
    b3 + 256 * b2 + 65536 * b1 + 16777216 * b0
}

/// `w` is the word made of the bytes `b0 b1 b2 b3` in the machine's byte order.
pub open spec fn native_word_of(w: u32, b0: u8, b1: u8, b2: u8, b3: u8) -> bool {
    w == word_le(b0, b1, b2, b3) || w == word_be(b0, b1, b2, b3)
}

/// `u32::from_ne_bytes`: the four bytes read as a word in the machine's
/// byte order, which is little- or big-endian depending on the target, so
/// the contract allows either.
#[verifier::external_body]
fn native_word(b0: u8, b1: u8, b2: u8, b3: u8) -> (r: u32)
    ensures
        native_word_of(r, b0, b1, b2, b3),
{
    u32::from_ne_bytes([b0, b1, b2, b3])
}

/// The index of the pixel in row `y`, column `x` of a row-major image
/// `width` pixels wide.
pub open spec fn pixel_index(y: int, x: int, width: int) -> int {
    y * width + x
}

/// The word of the bytes `b0 b1 b2 b3` in the byte order `le` (little-endian
/// where true, big-endian where false).
pub open spec fn word_in_order(le: bool, b0: u8, b1: u8, b2: u8, b3: u8) -> int {
    if le {
        word_le(b0, b1, b2, b3)
    } else {
        word_be(b0, b1, b2, b3)
    }
}

/// What the buffer pixel at row `y`, column `x` holds after a frame
/// transfer in byte order `le`: inside the part that both images cover, the
/// frame's pixel as the word of blue, green, red and a zero byte; elsewhere,
/// what it held before.
pub open spec fn transferred(
    le: bool,
    now: u32,
    before: u32,
    data: Seq<u8>,
    w: int,
    h: int,
    y: int,
    x: int,
) -> bool {
    if y < h && x < w {
        let si = 4 * pixel_index(y, x, w);
        now == word_in_order(le, data[si + 2], data[si + 1], data[si], 0)
    } else {
        now == before
    }
}

proof fn lemma_index_in_image(y: int, x: int, w: int, h: int)
    requires
        0 <= y < h,
        0 <= x < w,
    ensures
        0 <= pixel_index(y, x, w) < w * h,
        pixel_index(y, x, w) + 1 <= w * h,
{
    assert(y * w + x < w * h) by (nonlinear_arith)
        requires
            0 <= y < h,
            0 <= x < w,
    ;
    assert(0 <= y * w) by (nonlinear_arith)
        requires
            0 <= y,
            0 <= x < w,
    ;
}

proof fn lemma_index_injective(y1: int, x1: int, y2: int, x2: int, w: int)
    requires
        0 <= x1 < w,
        0 <= x2 < w,
        0 <= y1,
        0 <= y2,
        pixel_index(y1, x1, w) == pixel_index(y2, x2, w),
    ensures
        y1 == y2,
        x1 == x2,
{
    if y1 < y2 {
        assert(y1 * w + w <= y2 * w) by (nonlinear_arith)
            requires
                y1 < y2,
                0 <= x1 < w,
        ;
    } else if y2 < y1 {
        assert(y2 * w + w <= y1 * w) by (nonlinear_arith)
            requires
                y2 < y1,
                0 <= x1 < w,
        ;
    }
}

/// The whole buffer after a frame transfer in byte order `le`: every
/// pixel as `transferred` says.
pub open spec fn frame_transferred(
    le: bool,
    now: Seq<u32>,
    before: Seq<u32>,
    data: Seq<u8>,
    w: int,
    h: int,
    bw: int,
    bh: int,
) -> bool {
    forall|y: int, x: int|
        0 <= y < bh && 0 <= x < bw ==> transferred(
            le,
            #[trigger] now[pixel_index(y, x, bw)],
            before[pixel_index(y, x, bw)],
            data,
            w,
            h,
            y,
            x,
        )
}

/// The word of blue, green, red and a zero byte, in byte order `le`.
fn pack_pixel(b: u8, g: u8, r: u8, le: bool) -> (word: u32)
    ensures
        word == word_in_order(le, b, g, r, 0),
{
    if le {
        b as u32 + 256 * (g as u32) + 65536 * (r as u32)
    } else {
        256 * (r as u32) + 65536 * (g as u32) + 16777216 * (b as u32)
    }
}

/// Copy a rendered frame (`w` × `h` pixels, four bytes each: red, green,
/// blue, alpha) into the presentation buffer (`bw` × `bh` words), over the
/// part that both cover. Each copied pixel becomes the word of its blue,
/// green and red bytes and a zero byte, all in one byte order (the
/// machine's, read from `u32::from_ne_bytes`); the rest of the buffer is
/// left as it was.
pub fn copy_frame(data: &[u8], w: u32, h: u32, buf: &mut [u32], bw: u32, bh: u32)
    requires
        data@.len() == 4 * w * h,
        old(buf)@.len() == bw * bh,
        4 * w * h <= u32::MAX,
        bw * bh <= u32::MAX,
    ensures
        final(buf)@.len() == old(buf)@.len(),
        exists|le: bool|
            #[trigger] frame_transferred(le, final(buf)@, old(buf)@, data@, w as int, h as int, bw as int, bh as int),
{
    let ghost before = buf@;
    // The machine's byte order: the word with a 1 in its first byte.
    let le = native_word(1, 0, 0, 0) == 1;
    let rows = if h < bh {
        h
    } else {
        bh
    };
    let cols = if w < bw {
        w
    } else {
        bw
    };
    for y in 0..rows
        invariant
            rows <= h,
            rows <= bh,
            cols <= w,
            cols <= bw,
            rows == h || rows == bh,
            cols == w || cols == bw,
            data@.len() == 4 * w * h,
            4 * w * h <= u32::MAX,
            bw * bh <= u32::MAX,
            buf@.len() == before.len(),
            before.len() == bw * bh,
            forall|yy: int, xx: int|
                0 <= yy < y && 0 <= xx < bw ==> transferred(
                    le,
                    #[trigger] buf@[pixel_index(yy, xx, bw as int)],
                    before[pixel_index(yy, xx, bw as int)],
                    data@,
                    w as int,
                    h as int,
                    yy,
                    xx,
                ),
            forall|yy: int, xx: int|
                y <= yy < bh && 0 <= xx < bw ==> #[trigger] buf@[pixel_index(yy, xx, bw as int)]
                    == before[pixel_index(yy, xx, bw as int)],
    {
        for x in 0..cols
            invariant
                rows <= h,
                rows <= bh,
                cols <= w,
                cols <= bw,
                rows == h || rows == bh,
                cols == w || cols == bw,
                y < rows,
                data@.len() == 4 * w * h,
                4 * w * h <= u32::MAX,
                bw * bh <= u32::MAX,
                buf@.len() == before.len(),
                before.len() == bw * bh,
                forall|yy: int, xx: int|
                    0 <= yy < y && 0 <= xx < bw ==> transferred(
                        le,
                        #[trigger] buf@[pixel_index(yy, xx, bw as int)],
                        before[pixel_index(yy, xx, bw as int)],
                        data@,
                        w as int,
                        h as int,
                        yy,
                        xx,
                    ),
                forall|xx: int|
                    0 <= xx < x ==> transferred(
                        le,
                        #[trigger] buf@[pixel_index(y as int, xx, bw as int)],
                        before[pixel_index(y as int, xx, bw as int)],
                        data@,
                        w as int,
                        h as int,
                        y as int,
                        xx,
                    ),
                forall|xx: int|
                    x <= xx < bw ==> #[trigger] buf@[pixel_index(y as int, xx, bw as int)]
                        == before[pixel_index(y as int, xx, bw as int)],
                forall|yy: int, xx: int|
                    y < yy < bh && 0 <= xx < bw ==> #[trigger] buf@[pixel_index(yy, xx, bw as int)]
                        == before[pixel_index(yy, xx, bw as int)],
        {
            proof {
                lemma_index_in_image(y as int, x as int, w as int, h as int);
                lemma_index_in_image(y as int, x as int, bw as int, bh as int);
                let p = pixel_index(y as int, x as int, w as int);
                assert(p * 4 + 4 <= 4 * w * h) by (nonlinear_arith)
                    requires
                        p + 1 <= w * h,
                ;
            }
            let si = ((y * w + x) * 4) as usize;
            let di = (y * bw + x) as usize;
            let r = data[si];
            let g = data[si + 1];
            let b = data[si + 2];
            let ghost prev = buf@;
            buf[di] = pack_pixel(b, g, r, le);
            proof {
                assert forall|yy: int, xx: int|
                    0 <= yy < bh && 0 <= xx < bw && pixel_index(yy, xx, bw as int) != di implies buf@[pixel_index(yy, xx, bw as int)]
                    == prev[pixel_index(yy, xx, bw as int)] by {
                    lemma_index_in_image(yy, xx, bw as int, bh as int);
                }
                assert forall|yy: int, xx: int|
                    0 <= yy < bh && 0 <= xx < bw && (yy != y || xx != x) implies pixel_index(yy, xx, bw as int) != di by {
                    if pixel_index(yy, xx, bw as int) == di {
                        lemma_index_injective(yy, xx, y as int, x as int, bw as int);
                    }
                }
            }
        }
    }
    assert(frame_transferred(le, buf@, before, data@, w as int, h as int, bw as int, bh as int));
}

} // verus!
