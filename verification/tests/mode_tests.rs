use keycap::config::Config;
use keycap::key::{Key, KeyEvent};
use keycap::mode::{create_mode, ComboMode, DisplayMode, KeyLabel, Mode, Opacity, TimelineMode};

fn texts(labels: &[KeyLabel]) -> Vec<String> {
    labels.iter().map(|l| l.text.clone()).collect()
}

fn timeline_with(max_keys: usize, linger: u64, fade: u64) -> TimelineMode {
    let mut c = Config::default();
    c.timeline.max_keys = max_keys;
    c.timeline.linger_duration_ms = linger;
    c.timeline.fade_duration_ms = fade;
    TimelineMode::new(&c)
}

fn combo_with(style: &str, only_combos: bool) -> ComboMode {
    let mut c = Config::default();
    c.combo.modifier_style = style.to_string();
    c.combo.show_only_combos = only_combos;
    ComboMode::new(&c)
}

#[test]
fn timeline_starts_empty() {
    let t = timeline_with(10, 2000, 300);
    assert!(t.render(0).is_empty());
}

#[test]
fn timeline_shows_presses_in_order() {
    let mut t = timeline_with(10, 2000, 300);
    t.push_event(KeyEvent::Press(Key::KeyH), 0);
    t.push_event(KeyEvent::Press(Key::KeyI), 10);
    t.push_event(KeyEvent::Press(Key::Space), 20);
    assert_eq!(texts(&t.render(20)), vec!["H", "I", "␣"]);
}

#[test]
fn timeline_release_keeps_labels() {
    let mut t = timeline_with(10, 2000, 300);
    t.push_event(KeyEvent::Press(Key::KeyA), 0);
    t.push_event(KeyEvent::Release(Key::KeyA), 5);
    t.push_event(KeyEvent::Release(Key::KeyB), 6);
    assert_eq!(texts(&t.render(10)), vec!["A"]);
}

#[test]
fn timeline_release_restarts_linger() {
    let mut t = timeline_with(10, 2000, 300);
    t.push_event(KeyEvent::Press(Key::KeyA), 0);
    t.push_event(KeyEvent::Release(Key::KeyA), 100);
    assert_eq!(t.render(2100)[0].opacity, Opacity::Full);
    assert_eq!(t.render(2101)[0].opacity, Opacity::Fading { elapsed_ms: 1, duration_ms: 300 });
}

#[test]
fn timeline_release_restamps_only_the_latest_entry_of_the_key() {
    let mut t = timeline_with(10, 2000, 300);
    t.push_event(KeyEvent::Press(Key::KeyA), 0);
    t.push_event(KeyEvent::Press(Key::KeyB), 0);
    t.push_event(KeyEvent::Press(Key::KeyA), 50);
    t.push_event(KeyEvent::Release(Key::KeyA), 500);
    let labels = t.render(2200);
    assert_eq!(texts(&labels), vec!["A", "B", "A"]);
    assert_eq!(labels[0].opacity, Opacity::Fading { elapsed_ms: 200, duration_ms: 300 });
    assert_eq!(labels[1].opacity, Opacity::Fading { elapsed_ms: 200, duration_ms: 300 });
    assert_eq!(labels[2].opacity, Opacity::Full);
}

#[test]
fn timeline_release_of_key_without_entry_changes_nothing() {
    let mut t = timeline_with(10, 2000, 300);
    t.push_event(KeyEvent::Press(Key::KeyA), 0);
    t.push_event(KeyEvent::Release(Key::KeyB), 1000);
    assert_eq!(t.render(2100)[0].opacity, Opacity::Fading { elapsed_ms: 100, duration_ms: 300 });
}

#[test]
fn timeline_keeps_only_the_most_recent_max_keys() {
    let mut t = timeline_with(2, 2000, 300);
    t.push_event(KeyEvent::Press(Key::KeyA), 0);
    t.push_event(KeyEvent::Press(Key::KeyB), 1);
    t.push_event(KeyEvent::Press(Key::KeyC), 2);
    assert_eq!(texts(&t.render(3)), vec!["B", "C"]);
}

#[test]
fn timeline_with_zero_max_keys_keeps_nothing() {
    let mut t = timeline_with(0, 2000, 300);
    t.push_event(KeyEvent::Press(Key::KeyA), 0);
    assert!(t.render(0).is_empty());
}

#[test]
fn timeline_trims_after_shrinking_config() {
    let mut t = timeline_with(5, 2000, 300);
    for (i, k) in [Key::KeyA, Key::KeyB, Key::KeyC, Key::KeyD].iter().enumerate() {
        t.push_event(KeyEvent::Press(*k), i as u64);
    }
    let mut c = Config::default();
    c.timeline.max_keys = 2;
    t.update_config(&c);
    assert_eq!(texts(&t.render(10)).len(), 4);
    t.push_event(KeyEvent::Press(Key::KeyE), 10);
    assert_eq!(texts(&t.render(10)), vec!["D", "E"]);
}

#[test]
fn timeline_opacity_lingers_fades_and_clears() {
    let mut t = timeline_with(10, 2000, 300);
    t.push_event(KeyEvent::Press(Key::KeyA), 1000);
    assert_eq!(t.render(1000)[0].opacity, Opacity::Full);
    assert_eq!(t.render(3000)[0].opacity, Opacity::Full);
    assert_eq!(
        t.render(3100)[0].opacity,
        Opacity::Fading { elapsed_ms: 100, duration_ms: 300 }
    );
    assert_eq!(
        t.render(3299)[0].opacity,
        Opacity::Fading { elapsed_ms: 299, duration_ms: 300 }
    );
    assert_eq!(t.render(3300)[0].opacity, Opacity::Clear);
    assert_eq!(t.render(100_000)[0].opacity, Opacity::Clear);
}

#[test]
fn timeline_clock_before_press_counts_as_new() {
    let mut t = timeline_with(10, 2000, 300);
    t.push_event(KeyEvent::Press(Key::KeyA), 5000);
    assert_eq!(t.render(10)[0].opacity, Opacity::Full);
}

#[test]
fn timeline_zero_fade_goes_straight_to_clear() {
    let mut t = timeline_with(10, 100, 0);
    t.push_event(KeyEvent::Press(Key::KeyA), 0);
    assert_eq!(t.render(100)[0].opacity, Opacity::Full);
    assert_eq!(t.render(101)[0].opacity, Opacity::Clear);
}

#[test]
fn timeline_older_labels_never_more_opaque() {
    let mut t = timeline_with(10, 2000, 300);
    t.push_event(KeyEvent::Press(Key::KeyA), 0);
    t.push_event(KeyEvent::Press(Key::KeyB), 150);
    let labels = t.render(2200);
    assert_eq!(labels[0].opacity, Opacity::Fading { elapsed_ms: 200, duration_ms: 300 });
    assert_eq!(labels[1].opacity, Opacity::Fading { elapsed_ms: 50, duration_ms: 300 });
}

#[test]
fn timeline_reset_clears() {
    let mut t = timeline_with(10, 2000, 300);
    t.push_event(KeyEvent::Press(Key::KeyA), 0);
    t.reset();
    assert!(t.render(0).is_empty());
}

#[test]
fn combo_empty_renders_nothing() {
    let c = combo_with("symbol", false);
    assert!(c.render(0).is_empty());
}

#[test]
fn combo_symbol_style_puts_modifiers_first() {
    let mut c = combo_with("symbol", false);
    c.push_event(KeyEvent::Press(Key::KeyC), 0);
    c.push_event(KeyEvent::Press(Key::ControlLeft), 1);
    c.push_event(KeyEvent::Press(Key::ShiftRight), 2);
    let labels = c.render(3);
    assert_eq!(texts(&labels), vec!["⌃ + ⇧ + C"]);
    assert_eq!(labels[0].opacity, Opacity::Full);
}

#[test]
fn combo_text_style() {
    let mut c = combo_with("text", false);
    c.push_event(KeyEvent::Press(Key::MetaLeft), 0);
    c.push_event(KeyEvent::Press(Key::AltGr), 1);
    c.push_event(KeyEvent::Press(Key::Tab), 2);
    assert_eq!(texts(&c.render(3)), vec!["Cmd + Alt + ⇥"]);
}

#[test]
fn combo_other_style_uses_plain_labels() {
    let mut c = combo_with("plain", false);
    c.push_event(KeyEvent::Press(Key::MetaRight), 0);
    c.push_event(KeyEvent::Press(Key::KeyV), 1);
    assert_eq!(texts(&c.render(3)), vec!["Win + V"]);
}

#[test]
fn combo_symbol_alt_and_meta() {
    let mut c = combo_with("symbol", false);
    c.push_event(KeyEvent::Press(Key::Alt), 0);
    c.push_event(KeyEvent::Press(Key::MetaRight), 1);
    assert_eq!(texts(&c.render(3)), vec!["⌥ + ⌘"]);
}

#[test]
fn combo_single_key_shown_without_only_combos() {
    let mut c = combo_with("symbol", false);
    c.push_event(KeyEvent::Press(Key::KeyQ), 0);
    assert_eq!(texts(&c.render(0)), vec!["Q"]);
}

#[test]
fn combo_only_combos_needs_modifier_and_key() {
    let mut c = combo_with("symbol", true);
    c.push_event(KeyEvent::Press(Key::KeyQ), 0);
    assert!(c.render(0).is_empty());
    c.reset();
    c.push_event(KeyEvent::Press(Key::ShiftLeft), 0);
    c.push_event(KeyEvent::Press(Key::ControlLeft), 0);
    assert!(c.render(0).is_empty());
    c.push_event(KeyEvent::Press(Key::KeyQ), 0);
    assert_eq!(texts(&c.render(0)), vec!["⇧ + ⌃ + Q"]);
}

#[test]
fn combo_release_removes_key() {
    let mut c = combo_with("symbol", false);
    c.push_event(KeyEvent::Press(Key::ControlLeft), 0);
    c.push_event(KeyEvent::Press(Key::KeyA), 1);
    c.push_event(KeyEvent::Release(Key::ControlLeft), 2);
    assert_eq!(texts(&c.render(3)), vec!["A"]);
    c.push_event(KeyEvent::Release(Key::KeyA), 4);
    assert!(c.render(5).is_empty());
}

#[test]
fn combo_repeated_press_holds_key_once_and_moves_it_last() {
    let mut c = combo_with("symbol", false);
    c.push_event(KeyEvent::Press(Key::KeyA), 0);
    c.push_event(KeyEvent::Press(Key::KeyB), 1);
    c.push_event(KeyEvent::Press(Key::KeyA), 2);
    assert_eq!(texts(&c.render(3)), vec!["B + A"]);
}

#[test]
fn combo_release_of_unheld_key_changes_nothing() {
    let mut c = combo_with("symbol", false);
    c.push_event(KeyEvent::Press(Key::KeyA), 0);
    c.push_event(KeyEvent::Release(Key::KeyZ), 1);
    assert_eq!(texts(&c.render(3)), vec!["A"]);
}

#[test]
fn combo_update_config_changes_style() {
    let mut c = combo_with("symbol", false);
    c.push_event(KeyEvent::Press(Key::ControlLeft), 0);
    let mut cfg = Config::default();
    cfg.combo.modifier_style = "text".to_string();
    c.update_config(&cfg);
    assert_eq!(texts(&c.render(0)), vec!["Ctrl"]);
}

#[test]
fn create_mode_picks_combo_by_name() {
    let mut cfg = Config::default();
    cfg.global.mode = "combo".to_string();
    assert!(matches!(create_mode(&cfg), Mode::Combo(_)));
    cfg.global.mode = "timeline".to_string();
    assert!(matches!(create_mode(&cfg), Mode::Timeline(_)));
    cfg.global.mode = "anything".to_string();
    assert!(matches!(create_mode(&cfg), Mode::Timeline(_)));
}

#[test]
fn mode_dispatches_to_its_variant() {
    let mut cfg = Config::default();
    cfg.global.mode = "combo".to_string();
    let mut m = create_mode(&cfg);
    m.push_event(KeyEvent::Press(Key::ShiftLeft), 0);
    m.push_event(KeyEvent::Press(Key::Num1), 0);
    assert_eq!(texts(&m.render(0)), vec!["⇧ + 1"]);
    m.reset();
    assert!(m.render(0).is_empty());
    let mut t = create_mode(&Config::default());
    t.push_event(KeyEvent::Press(Key::Num1), 0);
    t.push_event(KeyEvent::Press(Key::Num2), 0);
    assert_eq!(texts(&t.render(0)), vec!["1", "2"]);
}

#[test]
fn is_modifier_recognises_modifiers() {
    assert!(ComboMode::is_modifier(Key::ControlRight));
    assert!(ComboMode::is_modifier(Key::AltGr));
    assert!(ComboMode::is_modifier(Key::MetaLeft));
    assert!(!ComboMode::is_modifier(Key::KeyA));
    assert!(!ComboMode::is_modifier(Key::CapsLock));
}

#[test]
fn format_key_plain_under_other_styles() {
    let m = combo_with("Symbol", false);
    assert_eq!(m.format_key(Key::MetaLeft), "Win");
    assert_eq!(m.format_key(Key::ControlLeft), "Ctrl");
    let e = combo_with("", false);
    assert_eq!(e.format_key(Key::ShiftRight), "Shift");
    let s = combo_with("symbol", false);
    assert_eq!(s.format_key(Key::KeyA), "A");
    assert_eq!(s.format_key(Key::ShiftRight), "⇧");
    let t = combo_with("text", false);
    assert_eq!(t.format_key(Key::MetaLeft), "Cmd");
    assert_eq!(t.format_key(Key::Space), "␣");
}
