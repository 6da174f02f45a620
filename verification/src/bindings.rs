//! How layouts are requested: the global shortcuts, the tray menu and its
//! item ids, and the main window's behaviour on close.

use vstd::prelude::*;

use crate::layout::Layout;

verus! {

/// Whether two texts are the same.
pub fn same_text(a: &str, b: &str) -> (r: bool)
    ensures
        r == (a@ == b@),
{
    let sa = String::from_str(a);
    let sb = String::from_str(b);
    sa == sb
}

/// The layouts in the order their shortcuts are registered.
pub open spec fn layouts_in_order() -> Seq<Layout> {
    seq![
        Layout::Left,
        Layout::Right,
        Layout::Top,
        Layout::Bottom,
        Layout::TopLeft,
        Layout::TopRight,
        Layout::BottomLeft,
        Layout::BottomRight,
        Layout::LeftThird,
        Layout::CenterThird,
        Layout::RightThird,
        Layout::LeftTwoThirds,
        Layout::CenterTwoThirds,
        Layout::RightTwoThirds,
        Layout::Maximize,
        Layout::Center,
    ]
}

/// The global shortcut (Ctrl+Option on macOS) bound to a layout.
pub open spec fn shortcut_text(layout: Layout) -> Seq<char> {
    match layout {
        Layout::Left => "Ctrl+Alt+Left"@,
        Layout::Right => "Ctrl+Alt+Right"@,
        Layout::Top => "Ctrl+Alt+Up"@,
        Layout::Bottom => "Ctrl+Alt+Down"@,
        Layout::TopLeft => "Ctrl+Alt+U"@,
        Layout::TopRight => "Ctrl+Alt+I"@,
        Layout::BottomLeft => "Ctrl+Alt+J"@,
        Layout::BottomRight => "Ctrl+Alt+K"@,
        Layout::LeftThird => "Ctrl+Alt+D"@,
        Layout::CenterThird => "Ctrl+Alt+F"@,
        Layout::RightThird => "Ctrl+Alt+G"@,
        Layout::LeftTwoThirds => "Ctrl+Alt+E"@,
        Layout::CenterTwoThirds => "Ctrl+Alt+R"@,
        Layout::RightTwoThirds => "Ctrl+Alt+T"@,
        Layout::Maximize => "Ctrl+Alt+Enter"@,
        Layout::Center => "Ctrl+Alt+C"@,
    }
}

/// The tray menu item id of a layout.
pub open spec fn menu_id_text(layout: Layout) -> Seq<char> {
    match layout {
        Layout::Left => "resize_left"@,
        Layout::Right => "resize_right"@,
        Layout::Top => "resize_top"@,
        Layout::Bottom => "resize_bottom"@,
        Layout::TopLeft => "resize_top_left"@,
        Layout::TopRight => "resize_top_right"@,
        Layout::BottomLeft => "resize_bottom_left"@,
        Layout::BottomRight => "resize_bottom_right"@,
        Layout::LeftThird => "resize_left_third"@,
        Layout::CenterThird => "resize_center_third"@,
        Layout::RightThird => "resize_right_third"@,
        Layout::LeftTwoThirds => "resize_left_two_thirds"@,
        Layout::CenterTwoThirds => "resize_center_two_thirds"@,
        Layout::RightTwoThirds => "resize_right_two_thirds"@,
        Layout::Maximize => "resize_maximize"@,
        Layout::Center => "resize_center"@,
    }
}

/// The tray menu label of a layout.
pub open spec fn menu_label_text(layout: Layout) -> Seq<char> {
    match layout {
        Layout::Left => "Left"@,
        Layout::Right => "Right"@,
        Layout::Top => "Top"@,
        Layout::Bottom => "Bottom"@,
        Layout::TopLeft => "Top Left"@,
        Layout::TopRight => "Top Right"@,
        Layout::BottomLeft => "Bottom Left"@,
        Layout::BottomRight => "Bottom Right"@,
        Layout::LeftThird => "Left Third"@,
        Layout::CenterThird => "Center Third"@,
        Layout::RightThird => "Right Third"@,
        Layout::LeftTwoThirds => "Left Two Thirds"@,
        Layout::CenterTwoThirds => "Center Two Thirds"@,
        Layout::RightTwoThirds => "Right Two Thirds"@,
        Layout::Maximize => "Maximize"@,
        Layout::Center => "Center"@,
    }
}

/// The accelerator shown beside a layout's tray menu item.
pub open spec fn menu_accelerator_text(layout: Layout) -> Seq<char> {
    match layout {
        Layout::Left => "Ctrl+Option+Left"@,
        Layout::Right => "Ctrl+Option+Right"@,
        Layout::Top => "Ctrl+Option+Up"@,
        Layout::Bottom => "Ctrl+Option+Down"@,
        Layout::TopLeft => "Ctrl+Option+U"@,
        Layout::TopRight => "Ctrl+Option+I"@,
        Layout::BottomLeft => "Ctrl+Option+J"@,
        Layout::BottomRight => "Ctrl+Option+K"@,
        Layout::LeftThird => "Ctrl+Option+D"@,
        Layout::CenterThird => "Ctrl+Option+F"@,
        Layout::RightThird => "Ctrl+Option+G"@,
        Layout::LeftTwoThirds => "Ctrl+Option+E"@,
        Layout::CenterTwoThirds => "Ctrl+Option+R"@,
        Layout::RightTwoThirds => "Ctrl+Option+T"@,
        Layout::Maximize => "Ctrl+Option+Return"@,
        Layout::Center => "Ctrl+Option+C"@,
    }
}

impl Layout {
    /// The global shortcut that requests this layout.
    pub fn shortcut(self) -> (r: &'static str)
        ensures
            r@ == shortcut_text(self),
    {
        match self {
            Layout::Left => "Ctrl+Alt+Left",
            Layout::Right => "Ctrl+Alt+Right",
            Layout::Top => "Ctrl+Alt+Up",
            Layout::Bottom => "Ctrl+Alt+Down",
            Layout::TopLeft => "Ctrl+Alt+U",
            Layout::TopRight => "Ctrl+Alt+I",
            Layout::BottomLeft => "Ctrl+Alt+J",
            Layout::BottomRight => "Ctrl+Alt+K",
            Layout::LeftThird => "Ctrl+Alt+D",
            Layout::CenterThird => "Ctrl+Alt+F",
            Layout::RightThird => "Ctrl+Alt+G",
            Layout::LeftTwoThirds => "Ctrl+Alt+E",
            Layout::CenterTwoThirds => "Ctrl+Alt+R",
            Layout::RightTwoThirds => "Ctrl+Alt+T",
            Layout::Maximize => "Ctrl+Alt+Enter",
            Layout::Center => "Ctrl+Alt+C",
        }
    }

    /// The id of this layout's tray menu item.
    pub fn menu_id(self) -> (r: &'static str)
        ensures
            r@ == menu_id_text(self),
    {
        match self {
            Layout::Left => "resize_left",
            Layout::Right => "resize_right",
            Layout::Top => "resize_top",
            Layout::Bottom => "resize_bottom",
            Layout::TopLeft => "resize_top_left",
            Layout::TopRight => "resize_top_right",
            Layout::BottomLeft => "resize_bottom_left",
            Layout::BottomRight => "resize_bottom_right",
            Layout::LeftThird => "resize_left_third",
            Layout::CenterThird => "resize_center_third",
            Layout::RightThird => "resize_right_third",
            Layout::LeftTwoThirds => "resize_left_two_thirds",
            Layout::CenterTwoThirds => "resize_center_two_thirds",
            Layout::RightTwoThirds => "resize_right_two_thirds",
            Layout::Maximize => "resize_maximize",
            Layout::Center => "resize_center",
        }
    }

    /// The label of this layout's tray menu item.
    pub fn menu_label(self) -> (r: &'static str)
        ensures
            r@ == menu_label_text(self),
    {
        match self {
            Layout::Left => "Left",
            Layout::Right => "Right",
            Layout::Top => "Top",
            Layout::Bottom => "Bottom",
            Layout::TopLeft => "Top Left",
            Layout::TopRight => "Top Right",
            Layout::BottomLeft => "Bottom Left",
            Layout::BottomRight => "Bottom Right",
            Layout::LeftThird => "Left Third",
            Layout::CenterThird => "Center Third",
            Layout::RightThird => "Right Third",
            Layout::LeftTwoThirds => "Left Two Thirds",
            Layout::CenterTwoThirds => "Center Two Thirds",
            Layout::RightTwoThirds => "Right Two Thirds",
            Layout::Maximize => "Maximize",
            Layout::Center => "Center",
        }
    }

    /// The accelerator shown beside this layout's tray menu item.
    pub fn menu_accelerator(self) -> (r: &'static str)
        ensures
            r@ == menu_accelerator_text(self),
    {
        match self {
            Layout::Left => "Ctrl+Option+Left",
            Layout::Right => "Ctrl+Option+Right",
            Layout::Top => "Ctrl+Option+Up",
            Layout::Bottom => "Ctrl+Option+Down",
            Layout::TopLeft => "Ctrl+Option+U",
            Layout::TopRight => "Ctrl+Option+I",
            Layout::BottomLeft => "Ctrl+Option+J",
            Layout::BottomRight => "Ctrl+Option+K",
            Layout::LeftThird => "Ctrl+Option+D",
            Layout::CenterThird => "Ctrl+Option+F",
            Layout::RightThird => "Ctrl+Option+G",
            Layout::LeftTwoThirds => "Ctrl+Option+E",
            Layout::CenterTwoThirds => "Ctrl+Option+R",
            Layout::RightTwoThirds => "Ctrl+Option+T",
            Layout::Maximize => "Ctrl+Option+Return",
            Layout::Center => "Ctrl+Option+C",
        }
    }
}

/// The shortcut bindings, in the order they are registered.
pub fn shortcut_bindings() -> (r: Vec<(&'static str, Layout)>)
    ensures
        r@.len() == layouts_in_order().len(),
        forall|i: int|
            0 <= i < r@.len() ==> (#[trigger] r@[i]).1 == layouts_in_order()[i] && r@[i].0@
                == shortcut_text(layouts_in_order()[i]),
{
    let order = [
        Layout::Left,
        Layout::Right,
        Layout::Top,
        Layout::Bottom,
        Layout::TopLeft,
        Layout::TopRight,
        Layout::BottomLeft,
        Layout::BottomRight,
        Layout::LeftThird,
        Layout::CenterThird,
        Layout::RightThird,
        Layout::LeftTwoThirds,
        Layout::CenterTwoThirds,
        Layout::RightTwoThirds,
        Layout::Maximize,
        Layout::Center,
    ];
    assert(order@ =~= layouts_in_order());
    let mut r: Vec<(&'static str, Layout)> = Vec::new();
    let mut i: usize = 0;
    while i < 16
        invariant
            order@ == layouts_in_order(),
            0 <= i <= 16,
            r@.len() == i,
            forall|k: int|
                0 <= k < i ==> (#[trigger] r@[k]).1 == layouts_in_order()[k] && r@[k].0@
                    == shortcut_text(layouts_in_order()[k]),
        decreases 16 - i,
    {
        let layout = order[i];
        r.push((layout.shortcut(), layout));
        i = i + 1;
    }
    r
}

/// One entry of the tray menu.
#[derive(Clone, Copy, Debug, PartialEq, Eq, Structural)]
pub enum TrayEntry {
    Resize(Layout),
    Separator,
    ShortcutReference,
    Quit,
}

/// Id of the tray item that shows the shortcut reference window.
pub const SHORTCUTS_ITEM_ID: &'static str = "shortcuts";

/// Label of the tray item that shows the shortcut reference window.
pub const SHORTCUTS_ITEM_LABEL: &'static str = "Shortcut Reference\u{2026}";

/// Id of the tray item that quits the application.
pub const QUIT_ITEM_ID: &'static str = "quit";

/// Label of the tray item that quits the application.
pub const QUIT_ITEM_LABEL: &'static str = "Quit Matrix Dust";

/// Label of the window that shows the shortcut reference.
pub const MAIN_WINDOW_LABEL: &'static str = "main";

/// The tray menu from top to bottom: halves, corners, thirds, two-thirds,
/// maximize and center, then the shortcut reference and quit, in groups
/// parted by separators.
pub open spec fn tray_menu() -> Seq<TrayEntry> {
    seq![
        TrayEntry::Resize(Layout::Left),
        TrayEntry::Resize(Layout::Right),
        TrayEntry::Resize(Layout::Top),
        TrayEntry::Resize(Layout::Bottom),
        TrayEntry::Separator,
        TrayEntry::Resize(Layout::TopLeft),
        TrayEntry::Resize(Layout::TopRight),
        TrayEntry::Resize(Layout::BottomLeft),
        TrayEntry::Resize(Layout::BottomRight),
        TrayEntry::Separator,
        TrayEntry::Resize(Layout::LeftThird),
        TrayEntry::Resize(Layout::CenterThird),
        TrayEntry::Resize(Layout::RightThird),
        TrayEntry::Separator,
        TrayEntry::Resize(Layout::LeftTwoThirds),
        TrayEntry::Resize(Layout::CenterTwoThirds),
        TrayEntry::Resize(Layout::RightTwoThirds),
        TrayEntry::Separator,
        TrayEntry::Resize(Layout::Maximize),
        TrayEntry::Resize(Layout::Center),
        TrayEntry::Separator,
        TrayEntry::ShortcutReference,
        TrayEntry::Quit,
    ]
}

/// The entries of the tray menu, from top to bottom.
pub fn tray_entries() -> (r: Vec<TrayEntry>)
    ensures
        r@ == tray_menu(),
{
    let r = vec![
        TrayEntry::Resize(Layout::Left),
        TrayEntry::Resize(Layout::Right),
        TrayEntry::Resize(Layout::Top),
        TrayEntry::Resize(Layout::Bottom),
        TrayEntry::Separator,
        TrayEntry::Resize(Layout::TopLeft),
        TrayEntry::Resize(Layout::TopRight),
        TrayEntry::Resize(Layout::BottomLeft),
        TrayEntry::Resize(Layout::BottomRight),
        TrayEntry::Separator,
        TrayEntry::Resize(Layout::LeftThird),
        TrayEntry::Resize(Layout::CenterThird),
        TrayEntry::Resize(Layout::RightThird),
        TrayEntry::Separator,
        TrayEntry::Resize(Layout::LeftTwoThirds),
        TrayEntry::Resize(Layout::CenterTwoThirds),
        TrayEntry::Resize(Layout::RightTwoThirds),
        TrayEntry::Separator,
        TrayEntry::Resize(Layout::Maximize),
        TrayEntry::Resize(Layout::Center),
        TrayEntry::Separator,
        TrayEntry::ShortcutReference,
        TrayEntry::Quit,
    ];
    assert(r@ =~= tray_menu());
    r
}

/// What a click on a tray menu item does.
#[derive(Clone, Copy, Debug, PartialEq, Eq, Structural)]
pub enum MenuAction {
    Quit,
    ShowShortcuts,
    Resize(Layout),
    Ignore,
}

/// The action for the tray menu item with id `id`: quit, show the shortcut
/// reference, apply the layout whose item it is, or nothing.
pub open spec fn menu_action_of(id: Seq<char>) -> MenuAction {
    if id == QUIT_ITEM_ID@ {
        MenuAction::Quit
    } else if id == SHORTCUTS_ITEM_ID@ {
        MenuAction::ShowShortcuts
    } else {
        layout_action_from(id, 0)
    }
}

/// The first layout, from position `k` of `layouts_in_order()` on, whose item
/// id is `id`, as a resize action; `Ignore` when there is none.
pub open spec fn layout_action_from(id: Seq<char>, k: int) -> MenuAction
    decreases 16 - k,
{
    if 0 <= k < 16 {
        if menu_id_text(layouts_in_order()[k]) == id {
            MenuAction::Resize(layouts_in_order()[k])
        } else {
            layout_action_from(id, k + 1)
        }
    } else {
        MenuAction::Ignore
    }
}

/// The action for a click on the tray menu item with id `id`.
pub fn menu_action(id: &str) -> (r: MenuAction)
    ensures
        r == menu_action_of(id@),
{
    if same_text(id, QUIT_ITEM_ID) {
        return MenuAction::Quit;
    }
    if same_text(id, SHORTCUTS_ITEM_ID) {
        return MenuAction::ShowShortcuts;
    }
    let order = [
        Layout::Left,
        Layout::Right,
        Layout::Top,
        Layout::Bottom,
        Layout::TopLeft,
        Layout::TopRight,
        Layout::BottomLeft,
        Layout::BottomRight,
        Layout::LeftThird,
        Layout::CenterThird,
        Layout::RightThird,
        Layout::LeftTwoThirds,
        Layout::CenterTwoThirds,
        Layout::RightTwoThirds,
        Layout::Maximize,
        Layout::Center,
    ];
    assert(order@ =~= layouts_in_order());
    let mut i: usize = 0;
    while i < 16
        invariant
            order@ == layouts_in_order(),
            0 <= i <= 16,
            id@ != QUIT_ITEM_ID@,
            id@ != SHORTCUTS_ITEM_ID@,
            layout_action_from(id@, i as int) == menu_action_of(id@),
        decreases 16 - i,
    {
        let layout = order[i];
        if same_text(id, layout.menu_id()) {
            return MenuAction::Resize(layout);
        }
        i = i + 1;
    }
    MenuAction::Ignore
}

/// Closing the window labelled `label` only hides it (the application keeps
/// running in the tray); true for the main window.
pub fn hides_on_close(label: &str) -> (r: bool)
    ensures
        r == (label@ == MAIN_WINDOW_LABEL@),
{
    same_text(label, MAIN_WINDOW_LABEL)
}

/// The tray item ids of the layouts differ from one another and from the
/// ids of the other items.
pub proof fn lemma_menu_ids_distinct()
    ensures
        forall|a: Layout, b: Layout| a != b ==> menu_id_text(a) != menu_id_text(b),
        forall|a: Layout| menu_id_text(a) != QUIT_ITEM_ID@ && menu_id_text(a) != SHORTCUTS_ITEM_ID@,
{
    reveal_strlit("resize_left");
    reveal_strlit("resize_right");
    reveal_strlit("resize_top");
    reveal_strlit("resize_bottom");
    reveal_strlit("resize_top_left");
    reveal_strlit("resize_top_right");
    reveal_strlit("resize_bottom_left");
    reveal_strlit("resize_bottom_right");
    reveal_strlit("resize_left_third");
    reveal_strlit("resize_center_third");
    reveal_strlit("resize_right_third");
    reveal_strlit("resize_left_two_thirds");
    reveal_strlit("resize_center_two_thirds");
    reveal_strlit("resize_right_two_thirds");
    reveal_strlit("resize_maximize");
    reveal_strlit("resize_center");
    reveal_strlit("quit");
    reveal_strlit("shortcuts");
    assert forall|a: Layout, b: Layout| a != b implies menu_id_text(a) != menu_id_text(b) by {
        if menu_id_text(a) == menu_id_text(b) {
            assert(menu_id_text(a).len() == menu_id_text(b).len());
            assert(menu_id_text(a)[7] == menu_id_text(b)[7]);
            assert(menu_id_text(a)[8] == menu_id_text(b)[8]);
        }
    }
    assert forall|a: Layout| menu_id_text(a) != QUIT_ITEM_ID@ && menu_id_text(a) != SHORTCUTS_ITEM_ID@ by {
        assert(menu_id_text(a).len() >= 10);
    }
}

/// Law: clicking a layout's tray item applies that layout.
pub proof fn lemma_menu_id_round_trip(layout: Layout)
    ensures
        menu_action_of(menu_id_text(layout)) == MenuAction::Resize(layout),
{
    lemma_menu_ids_distinct();
    reveal_with_fuel(layout_action_from, 17);
    let order = layouts_in_order();
    assert(order[0] == Layout::Left && order[1] == Layout::Right && order[2] == Layout::Top
        && order[3] == Layout::Bottom && order[4] == Layout::TopLeft && order[5]
        == Layout::TopRight && order[6] == Layout::BottomLeft && order[7] == Layout::BottomRight
        && order[8] == Layout::LeftThird && order[9] == Layout::CenterThird && order[10]
        == Layout::RightThird && order[11] == Layout::LeftTwoThirds && order[12]
        == Layout::CenterTwoThirds && order[13] == Layout::RightTwoThirds && order[14]
        == Layout::Maximize && order[15] == Layout::Center);
}

/// Law: every layout has its own global shortcut, all of them on the
/// Ctrl+Option (Ctrl+Alt) modifiers, and each is registered exactly once.
pub proof fn lemma_shortcuts_distinct()
    ensures
        forall|a: Layout| (#[trigger] shortcut_text(a)).take(9) == "Ctrl+Alt+"@,
        forall|a: Layout, b: Layout| a != b ==> shortcut_text(a) != shortcut_text(b),
        forall|l: Layout| #[trigger] layouts_in_order().contains(l),
        forall|i: int, j: int|
            0 <= i < j < 16 ==> #[trigger] layouts_in_order()[i] != #[trigger] layouts_in_order()[j],
{
    reveal_strlit("Ctrl+Alt+Left");
    reveal_strlit("Ctrl+Alt+Right");
    reveal_strlit("Ctrl+Alt+Up");
    reveal_strlit("Ctrl+Alt+Down");
    reveal_strlit("Ctrl+Alt+U");
    reveal_strlit("Ctrl+Alt+I");
    reveal_strlit("Ctrl+Alt+J");
    reveal_strlit("Ctrl+Alt+K");
    reveal_strlit("Ctrl+Alt+D");
    reveal_strlit("Ctrl+Alt+F");
    reveal_strlit("Ctrl+Alt+G");
    reveal_strlit("Ctrl+Alt+E");
    reveal_strlit("Ctrl+Alt+R");
    reveal_strlit("Ctrl+Alt+T");
    reveal_strlit("Ctrl+Alt+Enter");
    reveal_strlit("Ctrl+Alt+C");
    reveal_strlit("Ctrl+Alt+");
    assert forall|a: Layout| (#[trigger] shortcut_text(a)).take(9) == "Ctrl+Alt+"@ by {
        assert(shortcut_text(a).take(9) =~= "Ctrl+Alt+"@);
    }
    assert forall|a: Layout, b: Layout| a != b implies shortcut_text(a) != shortcut_text(b) by {
        if shortcut_text(a) == shortcut_text(b) {
            assert(shortcut_text(a).len() == shortcut_text(b).len());
            assert(shortcut_text(a)[9] == shortcut_text(b)[9]);
        }
    }
    let order = layouts_in_order();
    assert(order[0] == Layout::Left && order[1] == Layout::Right && order[2] == Layout::Top
        && order[3] == Layout::Bottom && order[4] == Layout::TopLeft && order[5]
        == Layout::TopRight && order[6] == Layout::BottomLeft && order[7] == Layout::BottomRight
        && order[8] == Layout::LeftThird && order[9] == Layout::CenterThird && order[10]
        == Layout::RightThird && order[11] == Layout::LeftTwoThirds && order[12]
        == Layout::CenterTwoThirds && order[13] == Layout::RightTwoThirds && order[14]
        == Layout::Maximize && order[15] == Layout::Center);
    assert forall|l: Layout| #[trigger] order.contains(l) by {
        match l {
            Layout::Left => assert(order[0] == l),
            Layout::Right => assert(order[1] == l),
            Layout::Top => assert(order[2] == l),
            Layout::Bottom => assert(order[3] == l),
            Layout::TopLeft => assert(order[4] == l),
            Layout::TopRight => assert(order[5] == l),
            Layout::BottomLeft => assert(order[6] == l),
            Layout::BottomRight => assert(order[7] == l),
            Layout::LeftThird => assert(order[8] == l),
            Layout::CenterThird => assert(order[9] == l),
            Layout::RightThird => assert(order[10] == l),
            Layout::LeftTwoThirds => assert(order[11] == l),
            Layout::CenterTwoThirds => assert(order[12] == l),
            Layout::RightTwoThirds => assert(order[13] == l),
            Layout::Maximize => assert(order[14] == l),
            Layout::Center => assert(order[15] == l),
        }
    }
}

/// The id character for a label character: letters in lower case, spaces as
/// underscores.
pub open spec fn id_char(c: char) -> char {
    if c == ' ' {
        '_'
    } else if 'A' <= c <= 'Z' {
        ((c as int) + 32) as char
    } else {
        c
    }
}

/// Law: each layout's tray item id is `resize_` followed by its label in
/// snake case ("Left Third" has the id "resize_left_third"), so an item's id
/// and its label always name the same layout.
pub proof fn lemma_menu_id_from_label(layout: Layout)
    ensures
        menu_id_text(layout).len() == 7 + menu_label_text(layout).len(),
        menu_id_text(layout).take(7) == "resize_"@,
        forall|i: int|
            0 <= i < menu_label_text(layout).len() ==> menu_id_text(layout)[7 + i] == id_char(
                #[trigger] menu_label_text(layout)[i],
            ),
{
    reveal_strlit("resize_");
    match layout {
        Layout::Left => {
            reveal_strlit("resize_left");
            reveal_strlit("Left");
        },
        Layout::Right => {
            reveal_strlit("resize_right");
            reveal_strlit("Right");
        },
        Layout::Top => {
            reveal_strlit("resize_top");
            reveal_strlit("Top");
        },
        Layout::Bottom => {
            reveal_strlit("resize_bottom");
            reveal_strlit("Bottom");
        },
        Layout::TopLeft => {
            reveal_strlit("resize_top_left");
            reveal_strlit("Top Left");
        },
        Layout::TopRight => {
            reveal_strlit("resize_top_right");
            reveal_strlit("Top Right");
        },
        Layout::BottomLeft => {
            reveal_strlit("resize_bottom_left");
            reveal_strlit("Bottom Left");
        },
        Layout::BottomRight => {
            reveal_strlit("resize_bottom_right");
            reveal_strlit("Bottom Right");
        },
        Layout::LeftThird => {
            reveal_strlit("resize_left_third");
            reveal_strlit("Left Third");
        },
        Layout::CenterThird => {
            reveal_strlit("resize_center_third");
            reveal_strlit("Center Third");
        },
        Layout::RightThird => {
            reveal_strlit("resize_right_third");
            reveal_strlit("Right Third");
        },
        Layout::LeftTwoThirds => {
            reveal_strlit("resize_left_two_thirds");
            reveal_strlit("Left Two Thirds");
        },
        Layout::CenterTwoThirds => {
            reveal_strlit("resize_center_two_thirds");
            reveal_strlit("Center Two Thirds");
        },
        Layout::RightTwoThirds => {
            reveal_strlit("resize_right_two_thirds");
            reveal_strlit("Right Two Thirds");
        },
        Layout::Maximize => {
            reveal_strlit("resize_maximize");
            reveal_strlit("Maximize");
        },
        Layout::Center => {
            reveal_strlit("resize_center");
            reveal_strlit("Center");
        },
    }
    assert(menu_id_text(layout).take(7) =~= "resize_"@);
}

/// Law: the accelerator shown beside a layout's tray item names the same
/// keys as its global shortcut, with the modifier spelled "Option" where the
/// shortcut says "Alt" (and the Return key where the shortcut says Enter).
pub proof fn lemma_accelerator_matches_shortcut(layout: Layout)
    ensures
        layout != Layout::Maximize ==> menu_accelerator_text(layout) == "Ctrl+Option+"@
            + shortcut_text(layout).skip(9),
        layout == Layout::Maximize ==> menu_accelerator_text(layout) == "Ctrl+Option+Return"@
            && shortcut_text(layout) == "Ctrl+Alt+Enter"@,
{
    reveal_strlit("Ctrl+Option+");
    match layout {
        Layout::Left => {
            reveal_strlit("Ctrl+Option+Left");
            reveal_strlit("Ctrl+Alt+Left");
        },
        Layout::Right => {
            reveal_strlit("Ctrl+Option+Right");
            reveal_strlit("Ctrl+Alt+Right");
        },
        Layout::Top => {
            reveal_strlit("Ctrl+Option+Up");
            reveal_strlit("Ctrl+Alt+Up");
        },
        Layout::Bottom => {
            reveal_strlit("Ctrl+Option+Down");
            reveal_strlit("Ctrl+Alt+Down");
        },
        Layout::TopLeft => {
            reveal_strlit("Ctrl+Option+U");
            reveal_strlit("Ctrl+Alt+U");
        },
        Layout::TopRight => {
            reveal_strlit("Ctrl+Option+I");
            reveal_strlit("Ctrl+Alt+I");
        },
        Layout::BottomLeft => {
            reveal_strlit("Ctrl+Option+J");
            reveal_strlit("Ctrl+Alt+J");
        },
        Layout::BottomRight => {
            reveal_strlit("Ctrl+Option+K");
            reveal_strlit("Ctrl+Alt+K");
        },
        Layout::LeftThird => {
            reveal_strlit("Ctrl+Option+D");
            reveal_strlit("Ctrl+Alt+D");
        },
        Layout::CenterThird => {
            reveal_strlit("Ctrl+Option+F");
            reveal_strlit("Ctrl+Alt+F");
        },
        Layout::RightThird => {
            reveal_strlit("Ctrl+Option+G");
            reveal_strlit("Ctrl+Alt+G");
        },
        Layout::LeftTwoThirds => {
            reveal_strlit("Ctrl+Option+E");
            reveal_strlit("Ctrl+Alt+E");
        },
        Layout::CenterTwoThirds => {
            reveal_strlit("Ctrl+Option+R");
            reveal_strlit("Ctrl+Alt+R");
        },
        Layout::RightTwoThirds => {
            reveal_strlit("Ctrl+Option+T");
            reveal_strlit("Ctrl+Alt+T");
        },
        Layout::Maximize => {},
        Layout::Center => {
            reveal_strlit("Ctrl+Option+C");
            reveal_strlit("Ctrl+Alt+C");
        },
    }
    if layout != Layout::Maximize {
        assert(menu_accelerator_text(layout) =~= "Ctrl+Option+"@ + shortcut_text(layout).skip(9));
    }
}

} // verus!
