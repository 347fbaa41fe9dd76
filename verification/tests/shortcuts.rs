use notiz::shortcuts::{
    hotkey_action, shortcut_error, shortcut_unavailable, shortcuts_unavailable, HotkeyAction,
    HotkeyIds, ShortcutKey, Shortcuts,
};

#[test]
fn pressed_registered_shortcuts_map_to_actions() {
    let ids = HotkeyIds { new_id: 1, search_id: 2, alt_new_id: 3, alt_search_id: 4 };
    let all = Shortcuts {
        new_registered: true,
        search_registered: true,
        alt_new_registered: true,
        alt_search_registered: true,
    };
    assert_eq!(hotkey_action(ids, all, true, 1), Some(HotkeyAction::NewNote));
    assert_eq!(hotkey_action(ids, all, true, 3), Some(HotkeyAction::NewNote));
    assert_eq!(hotkey_action(ids, all, true, 2), Some(HotkeyAction::Search));
    assert_eq!(hotkey_action(ids, all, true, 4), Some(HotkeyAction::Search));
    assert_eq!(hotkey_action(ids, all, false, 1), None);
    assert_eq!(hotkey_action(ids, all, true, 9), None);
    let none = Shortcuts::none();
    assert_eq!(hotkey_action(ids, none, true, 1), None);
    assert!(!none.any());
    assert!(all.any());
}

#[test]
fn shortcut_errors_are_joined_with_spaces() {
    assert_eq!(shortcut_error(&vec![]), None);
    let errors = vec![
        shortcuts_unavailable("no display"),
        shortcut_unavailable(ShortcutKey::AltN, "taken"),
    ];
    assert_eq!(
        shortcut_error(&errors).unwrap(),
        "Global shortcuts could not start: no display Alt+N is unavailable: taken"
    );
    assert_eq!(shortcut_unavailable(ShortcutKey::CtrlM, "e"), "Ctrl+M is unavailable: e");
}
