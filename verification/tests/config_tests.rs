use keycap::config::{
    default_anchor, default_true, ComboConfig, Config, DisplayConfig, GlobalConfig, ScreenConfig,
    TimelineConfig,
};

#[test]
fn defaults_match_documented_values() {
    let c = Config::default();
    assert_eq!(c.global.mode, "timeline");
    assert!(!c.global.launch_at_startup);
    assert_eq!(c.global.log_level, "info");
    assert_eq!(c.display.font_size, 24);
    assert_eq!(c.display.font_family, "monospace");
    assert_eq!(c.display.text_color, "#ffffff");
    assert_eq!(c.display.bg_color, "#00000080");
    assert_eq!(c.display.border_radius, 8);
    assert_eq!(c.display.padding, 12);
    assert_eq!(c.display.key_spacing, 6);
    assert!(c.display.shadow);
    assert_eq!(c.timeline.max_keys, 10);
    assert_eq!(c.timeline.fade_duration_ms, 300);
    assert_eq!(c.timeline.linger_duration_ms, 2000);
    assert_eq!(c.timeline.scroll_direction, "left");
    assert!(!c.combo.show_only_combos);
    assert_eq!(c.combo.modifier_style, "symbol");
    assert!(c.screens.is_empty());
    assert_eq!(default_anchor(), "bottom-center");
    assert!(default_true());
}

#[test]
fn section_defaults_agree_with_config_default() {
    let g = GlobalConfig::default();
    let d = DisplayConfig::default();
    let t = TimelineConfig::default();
    let k = ComboConfig::default();
    assert_eq!(g.mode, "timeline");
    assert_eq!(d.font_size, 24);
    assert_eq!(t.max_keys, 10);
    assert_eq!(k.modifier_style, "symbol");
}

#[test]
fn validate_clamps_low_values() {
    let mut c = Config::default();
    c.display.font_size = 2;
    c.timeline.max_keys = 0;
    c.timeline.linger_duration_ms = 50;
    c.validate();
    assert_eq!(c.display.font_size, 8);
    assert_eq!(c.timeline.max_keys, 1);
    assert_eq!(c.timeline.linger_duration_ms, 100);
}

#[test]
fn validate_clamps_high_values() {
    let mut c = Config::default();
    c.display.font_size = 500;
    c.display.border_radius = 101;
    c.display.padding = 1000;
    c.display.key_spacing = 201;
    c.timeline.max_keys = 51;
    c.timeline.fade_duration_ms = 5001;
    c.timeline.linger_duration_ms = 30001;
    c.validate();
    assert_eq!(c.display.font_size, 200);
    assert_eq!(c.display.border_radius, 100);
    assert_eq!(c.display.padding, 200);
    assert_eq!(c.display.key_spacing, 200);
    assert_eq!(c.timeline.max_keys, 50);
    assert_eq!(c.timeline.fade_duration_ms, 5000);
    assert_eq!(c.timeline.linger_duration_ms, 30000);
}

#[test]
fn validate_keeps_other_settings() {
    let mut c = Config::default();
    c.global.mode = "combo".to_string();
    c.display.bg_color = "#123456".to_string();
    c.screens.push(ScreenConfig {
        monitor_name: "DP-1".to_string(),
        enabled: false,
        anchor: "top-left".to_string(),
        offset_x: -5,
        offset_y: 7,
    });
    c.display.font_size = 1;
    c.validate();
    assert_eq!(c.global.mode, "combo");
    assert_eq!(c.display.bg_color, "#123456");
    assert_eq!(c.screens.len(), 1);
    assert_eq!(c.screens[0].offset_x, -5);
    assert_eq!(c.display.font_size, 8);
}

#[test]
fn validate_is_idempotent() {
    let mut c = Config::default();
    c.display.font_size = 9000;
    c.timeline.max_keys = 0;
    c.validate();
    let once = c.clone();
    c.validate();
    assert_eq!(c.display.font_size, once.display.font_size);
    assert_eq!(c.timeline.max_keys, once.timeline.max_keys);
    assert_eq!(c.timeline.linger_duration_ms, once.timeline.linger_duration_ms);
}

#[test]
fn validate_leaves_defaults_unchanged() {
    let mut c = Config::default();
    c.validate();
    let d = Config::default();
    assert_eq!(c.display.font_size, d.display.font_size);
    assert_eq!(c.display.border_radius, d.display.border_radius);
    assert_eq!(c.display.padding, d.display.padding);
    assert_eq!(c.display.key_spacing, d.display.key_spacing);
    assert_eq!(c.timeline.max_keys, d.timeline.max_keys);
    assert_eq!(c.timeline.fade_duration_ms, d.timeline.fade_duration_ms);
    assert_eq!(c.timeline.linger_duration_ms, d.timeline.linger_duration_ms);
}

#[test]
fn config_path_is_next_to_the_executable() {
    assert_eq!(Config::config_path(Some("/opt/keycap")), "/opt/keycap/keycap.toml");
    assert_eq!(Config::config_path(Some("/opt/keycap/")), "/opt/keycap/keycap.toml");
}

#[test]
fn config_path_falls_back_to_current_dir() {
    assert_eq!(Config::config_path(None), "./keycap.toml");
}

#[test]
fn paths_onto_empty_and_drive_like_directories() {
    assert_eq!(Config::config_path(Some("")), "keycap.toml");
    assert_eq!(Config::config_path(Some("C:")), "C:/keycap.toml");
    assert_eq!(Config::config_path(Some("dir\\")), "dir\\/keycap.toml");
}

#[test]
fn log_path_is_next_to_the_executable() {
    assert_eq!(Config::log_path(Some("/usr/bin")), "/usr/bin/keycap.log");
    assert_eq!(Config::log_path(None), "./keycap.log");
}

#[test]
fn loaded_or_default_prefers_parsed_config() {
    let mut parsed = Config::default();
    parsed.global.mode = "combo".to_string();
    let c = Config::loaded_or_default(Some(parsed));
    assert_eq!(c.global.mode, "combo");
    let d = Config::loaded_or_default(None);
    assert_eq!(d.global.mode, "timeline");
}
