use window_tuner::bindings::{
    hides_on_close, menu_action, same_text, shortcut_bindings, tray_entries, MenuAction, TrayEntry,
    QUIT_ITEM_ID, SHORTCUTS_ITEM_ID,
};
use window_tuner::layout::Layout;

const ALL: [Layout; 16] = [
    Layout::Left,
    Layout::Right,
    Layout::Top,
    Layout::Bottom,
    Layout::TopLeft,
    Layout::TopRight,
    Layout::BottomLeft,
    Layout::BottomRight,
    Layout::LeftThird,
    Layout::CenterThird,
    Layout::RightThird,
    Layout::LeftTwoThirds,
    Layout::CenterTwoThirds,
    Layout::RightTwoThirds,
    Layout::Maximize,
    Layout::Center,
];

#[test]
fn shortcuts_of_the_readme() {
    let expected = [
        "Ctrl+Alt+Left",
        "Ctrl+Alt+Right",
        "Ctrl+Alt+Up",
        "Ctrl+Alt+Down",
        "Ctrl+Alt+U",
        "Ctrl+Alt+I",
        "Ctrl+Alt+J",
        "Ctrl+Alt+K",
        "Ctrl+Alt+D",
        "Ctrl+Alt+F",
        "Ctrl+Alt+G",
        "Ctrl+Alt+E",
        "Ctrl+Alt+R",
        "Ctrl+Alt+T",
        "Ctrl+Alt+Enter",
        "Ctrl+Alt+C",
    ];
    let bindings = shortcut_bindings();
    assert_eq!(bindings.len(), 16);
    for i in 0..16 {
        assert_eq!(bindings[i], (expected[i], ALL[i]));
        assert_eq!(ALL[i].shortcut(), expected[i]);
    }
}

#[test]
fn shortcuts_are_distinct() {
    for a in ALL {
        for b in ALL {
            if a != b {
                assert_ne!(a.shortcut(), b.shortcut());
            }
        }
    }
}

#[test]
fn menu_items_round_trip() {
    for layout in ALL {
        assert_eq!(menu_action(layout.menu_id()), MenuAction::Resize(layout));
    }
    assert_eq!(menu_action("resize_center_two_thirds"), MenuAction::Resize(Layout::CenterTwoThirds));
    assert_eq!(menu_action(QUIT_ITEM_ID), MenuAction::Quit);
    assert_eq!(menu_action(SHORTCUTS_ITEM_ID), MenuAction::ShowShortcuts);
    assert_eq!(menu_action("resize_diagonal"), MenuAction::Ignore);
    assert_eq!(menu_action(""), MenuAction::Ignore);
    assert_eq!(menu_action("Quit"), MenuAction::Ignore);
}

#[test]
fn menu_labels_and_accelerators() {
    assert_eq!(Layout::TopLeft.menu_label(), "Top Left");
    assert_eq!(Layout::CenterTwoThirds.menu_label(), "Center Two Thirds");
    assert_eq!(Layout::Left.menu_accelerator(), "Ctrl+Option+Left");
    assert_eq!(Layout::Maximize.menu_accelerator(), "Ctrl+Option+Return");
    assert_eq!(Layout::Maximize.shortcut(), "Ctrl+Alt+Enter");
    assert_eq!(Layout::BottomRight.menu_id(), "resize_bottom_right");
}

#[test]
fn tray_menu_layout() {
    let entries = tray_entries();
    assert_eq!(entries.len(), 23);
    assert_eq!(entries[0], TrayEntry::Resize(Layout::Left));
    assert_eq!(entries[4], TrayEntry::Separator);
    assert_eq!(entries[19], TrayEntry::Resize(Layout::Center));
    assert_eq!(entries[21], TrayEntry::ShortcutReference);
    assert_eq!(entries[22], TrayEntry::Quit);
    let layouts: Vec<Layout> = entries
        .iter()
        .filter_map(|e| match e {
            TrayEntry::Resize(l) => Some(*l),
            _ => None,
        })
        .collect();
    assert_eq!(layouts, ALL.to_vec());
    assert_eq!(entries.iter().filter(|e| **e == TrayEntry::Separator).count(), 5);
}

#[test]
fn close_hides_only_the_main_window() {
    assert!(hides_on_close("main"));
    assert!(!hides_on_close("settings"));
    assert!(!hides_on_close("Main"));
}

#[test]
fn text_comparison() {
    assert!(same_text("abc", "abc"));
    assert!(!same_text("abc", "abd"));
    assert!(!same_text("abc", "ab"));
    assert!(same_text("", ""));
}
