use notiz::tray::{menu_id, notiz_icon_rgba, tray_action_for, TrayAction};

#[test]
fn menu_ids_map_back_to_their_actions() {
    for action in [TrayAction::NewNote, TrayAction::Search, TrayAction::Quit] {
        assert_eq!(tray_action_for(menu_id(action)), Some(action));
    }
    assert_eq!(menu_id(TrayAction::NewNote), "new-note");
    assert_eq!(tray_action_for("other"), None);
}

#[test]
fn icon_has_transparent_corners_dark_square_and_light_glyph() {
    let pixels = notiz_icon_rgba();
    assert_eq!(pixels.len(), 32 * 32 * 4);
    let at = |x: usize, y: usize| pixels[(y * 32 + x) * 4..(y * 32 + x) * 4 + 4].to_vec();
    assert_eq!(at(0, 0), vec![0, 0, 0, 0]);
    assert_eq!(at(4, 4), vec![35, 39, 46, 255]);
    assert_eq!(at(10, 10), vec![229, 234, 240, 255]);
    assert_eq!(at(16, 16), vec![229, 234, 240, 255]);
    assert_eq!(at(16, 10), vec![35, 39, 46, 255]);
    assert_eq!(at(31, 31), vec![0, 0, 0, 0]);
}
