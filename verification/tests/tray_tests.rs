use keycap::tray::{
    action_for_menu_id, apply_tray_action, icon_rgba, taskbar_hidden_style, tool_tip_title,
    toggle_label, TrayAction, ICON_SIZE,
};

#[test]
fn show_hide_toggles_and_quit_quits() {
    assert_eq!(apply_tray_action(false, TrayAction::ShowHide), (true, false));
    assert_eq!(apply_tray_action(true, TrayAction::ShowHide), (false, false));
    assert_eq!(apply_tray_action(true, TrayAction::ToggleMode), (true, false));
    assert_eq!(apply_tray_action(false, TrayAction::Quit), (false, true));
    let (h1, _) = apply_tray_action(false, TrayAction::ShowHide);
    let (h2, _) = apply_tray_action(h1, TrayAction::ShowHide);
    assert!(!h2);
}

#[test]
fn menu_ids_map_to_actions() {
    let show = "1".to_string();
    let mode = "2".to_string();
    let quit = "3".to_string();
    assert_eq!(action_for_menu_id(&"1".to_string(), &show, &mode, &quit), Some(TrayAction::ShowHide));
    assert_eq!(action_for_menu_id(&"2".to_string(), &show, &mode, &quit), Some(TrayAction::ToggleMode));
    assert_eq!(action_for_menu_id(&"3".to_string(), &show, &mode, &quit), Some(TrayAction::Quit));
    assert_eq!(action_for_menu_id(&"4".to_string(), &show, &mode, &quit), None);
}

#[test]
fn tray_texts() {
    assert_eq!(toggle_label(true), "Hide");
    assert_eq!(toggle_label(false), "Show");
    assert_eq!(tool_tip_title(true), "Keycap — visible");
    assert_eq!(tool_tip_title(false), "Keycap — hidden");
}

#[test]
fn icon_is_a_small_keyboard() {
    let p = icon_rgba();
    let w = ICON_SIZE as usize;
    assert_eq!(p.len(), w * w * 4);
    let px = |x: usize, y: usize| {
        let i = (y * w + x) * 4;
        [p[i], p[i + 1], p[i + 2], p[i + 3]]
    };
    assert_eq!(px(0, 0), [0, 0, 0, 0]);
    assert_eq!(px(3, 8), [40, 44, 52, 255]);
    assert_eq!(px(28, 23), [40, 44, 52, 255]);
    assert_eq!(px(29, 23), [0, 0, 0, 0]);
    assert_eq!(px(5, 11), [220, 220, 220, 255]);
    assert_eq!(px(4, 11), [40, 44, 52, 255]);
    assert_eq!(px(5, 15), [40, 44, 52, 255]);
    assert_eq!(px(5, 20), [220, 220, 220, 255]);
    assert_eq!(px(5, 21), [40, 44, 52, 255]);
}

#[test]
fn icon_matches_its_drawing_rule() {
    let p = icon_rgba();
    for y in 0..32usize {
        for x in 0..32usize {
            let i = (y * 32 + x) * 4;
            let body = x >= 3 && x < 29 && y >= 8 && y < 24;
            let key = body && ((y >= 11 && y < 15) || (y >= 17 && y < 21)) && (x % 4 != 0);
            let expected = if key {
                [220, 220, 220, 255]
            } else if body {
                [40, 44, 52, 255]
            } else {
                [0, 0, 0, 0]
            };
            assert_eq!(&p[i..i + 4], &expected);
        }
    }
}

#[test]
fn taskbar_style_sets_tool_window_and_clears_app_window() {
    assert_eq!(taskbar_hidden_style(0), 0x80);
    assert_eq!(taskbar_hidden_style(0x40000), 0x80);
    assert_eq!(taskbar_hidden_style(0x40001), 0x81);
    assert_eq!(taskbar_hidden_style(-1), !0x40000);
}
