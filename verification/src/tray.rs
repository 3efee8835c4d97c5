//! The tray icon and its menu: the actions it offers, their effect, the
//! texts it shows and the icon's pixels.
use vstd::prelude::*;

verus! {

/// What a tray menu entry asks of the overlay.
#[derive(Debug, Clone, Copy, PartialEq, Eq, Structural)]
pub enum TrayAction {
    ShowHide,
    ToggleMode,
    Quit,
}

/// The overlay's hidden flag after a tray action, and whether the
/// application is to quit: Show/Hide flips the flag, Quit quits, and
/// Switch Mode changes neither.
pub open spec fn tray_effect(hidden: bool, action: TrayAction) -> (bool, bool) {
    match action {
        TrayAction::ShowHide => (!hidden, false),
        TrayAction::ToggleMode => (hidden, false),
        TrayAction::Quit => (hidden, true),
    }
}

/// Apply a tray action to the overlay's hidden flag; the second value says
/// whether to quit.
pub fn apply_tray_action(hidden: bool, action: TrayAction) -> (r: (bool, bool))
    ensures
        r == tray_effect(hidden, action),
{
    match action {
        TrayAction::ShowHide => (!hidden, false),
        TrayAction::ToggleMode => (hidden, false),
        TrayAction::Quit => (hidden, true),
    }
}

/// Show/Hide twice leaves the overlay as it was, and only Quit quits.
pub proof fn lemma_show_hide_twice(hidden: bool)
    ensures
        tray_effect(tray_effect(hidden, TrayAction::ShowHide).0, TrayAction::ShowHide).0 == hidden,
        forall|a: TrayAction| #[trigger] tray_effect(hidden, a).1 <==> a == TrayAction::Quit,
{
}

/// The action of the menu entry with identifier `id`, given the
/// identifiers of the Show/Hide, Switch Mode and Quit entries (checked in
/// that order); `None` for any other entry.
pub open spec fn menu_action(
    id: Seq<char>,
    show_id: Seq<char>,
    mode_id: Seq<char>,
    quit_id: Seq<char>,
) -> Option<TrayAction> {
    if id == show_id {
        Some(TrayAction::ShowHide)
    } else if id == mode_id {
        Some(TrayAction::ToggleMode)
    } else if id == quit_id {
        Some(TrayAction::Quit)
    } else {
        None
    }
}

/// Map a menu event's entry identifier to its action.
pub fn action_for_menu_id(id: &String, show_id: &String, mode_id: &String, quit_id: &String) -> (r:
    Option<TrayAction>)
    ensures
        r == menu_action(id@, show_id@, mode_id@, quit_id@),
{
    if id.eq(show_id) {
        Some(TrayAction::ShowHide)
    } else if id.eq(mode_id) {
        Some(TrayAction::ToggleMode)
    } else if id.eq(quit_id) {
        Some(TrayAction::Quit)
    } else {
        None
    }
}

/// The label of the menu entry that toggles the overlay.
pub fn toggle_label(visible: bool) -> (r: String)
    ensures
        r@ == if visible {
            "Hide"@
        } else {
            "Show"@
        },
{
    if visible {
        String::from_str("Hide")
    } else {
        String::from_str("Show")
    }
}

/// The tray's tool-tip title.
pub fn tool_tip_title(visible: bool) -> (r: String)
    ensures
        r@ == if visible {
            "Keycap — visible"@
        } else {
            "Keycap — hidden"@
        },
{
    if visible {
        String::from_str("Keycap — visible")
    } else {
        String::from_str("Keycap — hidden")
    }
}

// ─── Icon ─────────────────────────────────────────────────

/// The width and height of the tray icon, in pixels.
pub const ICON_SIZE: u32 = 32;

/// The keyboard's body: a dark rectangle.
pub open spec fn icon_body(x: int, y: int) -> bool {
    3 <= x < 29 && 8 <= y < 24
}

/// The keys: two rows of light keycaps on the body, one pixel apart.
pub open spec fn icon_key(x: int, y: int) -> bool {
    icon_body(x, y) && ((11 <= y < 15) || (17 <= y < 21)) && x % 4 != 0
}

/// Channel `c` (red, green, blue, alpha) of the icon's pixel at column `x`,
/// row `y`: light grey on a key, dark slate on the body, transparent elsewhere.
pub open spec fn icon_channel(x: int, y: int, c: int) -> u8 {
    if icon_key(x, y) {
        if c == 3 {
            255
        } else {
            220
        }
    } else if icon_body(x, y) {
        if c == 0 {
            40
        } else if c == 1 {
            44
        } else if c == 2 {
            52
        } else {
            255
        }
    } else {
        0
    }
}

/// The byte offset of channel `c` of the pixel at column `x`, row `y`.
pub open spec fn icon_offset(x: int, y: int, c: int) -> int {
    4 * (32 * y + x) + c
}

fn icon_pixel(x: u32, y: u32) -> (r: (u8, u8, u8, u8))
    requires
        x < 32,
        y < 32,
    ensures
        r.0 == icon_channel(x as int, y as int, 0),
        r.1 == icon_channel(x as int, y as int, 1),
        r.2 == icon_channel(x as int, y as int, 2),
        r.3 == icon_channel(x as int, y as int, 3),
{
    let body = x >= 3 && x < 29 && y >= 8 && y < 24;
    let key = body && ((y >= 11 && y < 15) || (y >= 17 && y < 21)) && (x % 4 != 0);
    if key {
        (220, 220, 220, 255)
    } else if body {
        (40, 44, 52, 255)
    } else {
        (0, 0, 0, 0)
    }
}

/// The tray icon as RGBA bytes, row by row: a small keyboard.
pub fn icon_rgba() -> (r: Vec<u8>)
    ensures
        r@.len() == 32 * 32 * 4,
        forall|x: int, y: int, c: int|
            0 <= x < 32 && 0 <= y < 32 && 0 <= c < 4 ==> #[trigger] r@[icon_offset(x, y, c)]
                == icon_channel(x, y, c),
{
    let mut p: Vec<u8> = Vec::new();
    for y in 0..ICON_SIZE
        invariant
            p@.len() == 128 * y,
            forall|xx: int, yy: int, c: int|
                0 <= xx < 32 && 0 <= yy < y && 0 <= c < 4 ==> #[trigger] p@[icon_offset(xx, yy, c)]
                    == icon_channel(xx, yy, c),
    {
        for x in 0..ICON_SIZE
            invariant
                y < 32,
                p@.len() == 128 * y + 4 * x,
                forall|xx: int, yy: int, c: int|
                    0 <= xx < 32 && 0 <= yy < y && 0 <= c < 4 ==> #[trigger] p@[icon_offset(xx, yy, c)]
                        == icon_channel(xx, yy, c),
                forall|xx: int, c: int|
                    0 <= xx < x && 0 <= c < 4 ==> #[trigger] p@[icon_offset(xx, y as int, c)]
                        == icon_channel(xx, y as int, c),
        {
            let px = icon_pixel(x, y);
            p.push(px.0);
            p.push(px.1);
            p.push(px.2);
            p.push(px.3);
        }
    }
    p
}

// ─── Taskbar ──────────────────────────────────────────────

/// The extended window style that makes a tool window: the tool-window bit
/// (0x80) set, the app-window bit (0x40000) cleared, every other bit kept.
pub fn taskbar_hidden_style(ex_style: i32) -> (r: i32)
    ensures
        r & 0x80 == 0x80,
        r & 0x40000 == 0,
        r & !0x40080i32 == ex_style & !0x40080i32,
{
    let r = (ex_style | 0x80) & !0x40000;
    assert(r & 0x80 == 0x80 && r & 0x40000 == 0 && r & !0x40080i32 == ex_style & !0x40080i32)
        by (bit_vector)
        requires
            r == (ex_style | 0x80) & !0x40000,
    ;
    r
}

} // verus!
