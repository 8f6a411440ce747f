//! The menu tree builder: a single configuration-driven builder, parameterized
//! by a capability set, that assembles the application's menu bar.
//!
//! Two configurations are in use: the full one (a View group with theme and
//! visual-effect toggles, window-management items, shell integration) and a
//! minimal one without them. The builder guarantees that every produced tree
//! is well-formed: item identifiers are globally unique and no accelerator is
//! claimed twice.

use vstd::prelude::*;
use crate::ids::MenuId;
use crate::tree::Accel;
use crate::tree::MenuEntry;
use crate::tree::MenuGroup;
use crate::tree::MenuItem;
use crate::tree::MenuTree;
use crate::tree::PredefinedKind;
use crate::tree::entries_items;
use crate::tree::groups_items;
use crate::tree::items_ids;

verus! {

/// The build-time capability set. The choice is fixed per build, not a
/// runtime flag.
#[derive(Clone, Copy, Debug, PartialEq, Eq, Structural)]
pub struct MenuConfig {
    /// Whether the View group (theme and visual-effect toggles) exists.
    pub has_view_menu: bool,
    /// Whether the window-management items (new and close window) exist.
    pub has_window_management: bool,
    /// Whether the host's shell-integration capability is enabled. This does
    /// not change the tree; the host runtime reads it at startup.
    pub has_shell_integration: bool,
}

impl MenuConfig {
    /// The full configuration: every capability enabled.
    pub fn full() -> (c: MenuConfig)
        ensures
            c == (MenuConfig {
                has_view_menu: true,
                has_window_management: true,
                has_shell_integration: true,
            }),
    {
        MenuConfig { has_view_menu: true, has_window_management: true, has_shell_integration: true }
    }

    /// The minimal configuration: no View group, no window management, no
    /// shell integration.
    pub fn minimal() -> (c: MenuConfig)
        ensures
            c == (MenuConfig {
                has_view_menu: false,
                has_window_management: false,
                has_shell_integration: false,
            }),
    {
        MenuConfig {
            has_view_menu: false,
            has_window_management: false,
            has_shell_integration: false,
        }
    }
}

/// The display label each menu item carries.
pub open spec fn spec_item_label(id: MenuId) -> Seq<char> {
    match id {
        MenuId::NewNote => "New Note"@,
        MenuId::NewWindow => "New Window"@,
        MenuId::CloseWindow => "Close Window"@,
        MenuId::OpenNote => "Open Note..."@,
        MenuId::CycleTheme => "Toggle Theme"@,
        MenuId::ThemeSystem => "System"@,
        MenuId::ThemeLight => "Light"@,
        MenuId::ThemeDark => "Dark"@,
        MenuId::ToggleExplosions => "Toggle Explosions"@,
    }
}

/// The accelerator each menu item carries, if any. No two items share one.
pub open spec fn spec_item_accel(id: MenuId) -> Option<Accel> {
    match id {
        MenuId::NewNote => Some(Accel { cmd_or_ctrl: true, shift: false, key: 'N' }),
        MenuId::NewWindow => Some(Accel { cmd_or_ctrl: true, shift: true, key: 'N' }),
        MenuId::CloseWindow => Some(Accel { cmd_or_ctrl: true, shift: false, key: 'W' }),
        MenuId::OpenNote => Some(Accel { cmd_or_ctrl: true, shift: false, key: 'P' }),
        MenuId::CycleTheme => Some(Accel { cmd_or_ctrl: true, shift: false, key: 'D' }),
        MenuId::ThemeSystem => None,
        MenuId::ThemeLight => None,
        MenuId::ThemeDark => None,
        MenuId::ToggleExplosions => Some(Accel { cmd_or_ctrl: true, shift: false, key: 'E' }),
    }
}

/// An item as the builder makes it: enabled, with the canonical label and
/// accelerator of its identifier.
pub open spec fn canonical_item(it: MenuItem) -> bool {
    it.label@ == spec_item_label(it.id) && it.enabled && it.accel == spec_item_accel(it.id)
}

/// All items of a sequence are canonical.
pub open spec fn items_canonical(s: Seq<MenuItem>) -> bool {
    forall|k: int| 0 <= k < s.len() ==> canonical_item(#[trigger] s[k])
}

/// `e` is the canonical selectable item for `id`.
pub open spec fn is_item(e: MenuEntry, id: MenuId) -> bool {
    e matches MenuEntry::Item(it) && it.id == id && canonical_item(it)
}

/// `e` is the predefined platform item of kind `k`.
pub open spec fn is_predef(e: MenuEntry, k: PredefinedKind) -> bool {
    e matches MenuEntry::Predefined { kind, .. } && kind == k
}

/// The application group exactly as built: the platform's lifecycle items
/// under the application's name, with the custom about title, and no
/// selectable item.
pub open spec fn app_group_layout(g: MenuGroup) -> bool {
    &&& g.label@ == "Drift"@
    &&& g.enabled
    &&& g.entries@.len() == 9
    &&& (g.entries@[0] matches MenuEntry::Predefined {
        kind: PredefinedKind::About,
        title: Some(t),
    } && t@ == "About Drift"@)
    &&& g.entries@[1] is Separator
    &&& is_predef(g.entries@[2], PredefinedKind::Services)
    &&& g.entries@[3] is Separator
    &&& is_predef(g.entries@[4], PredefinedKind::Hide)
    &&& is_predef(g.entries@[5], PredefinedKind::HideOthers)
    &&& is_predef(g.entries@[6], PredefinedKind::ShowAll)
    &&& g.entries@[7] is Separator
    &&& is_predef(g.entries@[8], PredefinedKind::Quit)
    &&& entries_items(g.entries@) == Seq::<MenuItem>::empty()
}

/// The File group exactly as built: note actions, and the window-management
/// items when the configuration has them.
pub open spec fn file_group_layout(c: MenuConfig, g: MenuGroup) -> bool {
    &&& g.label@ == "File"@
    &&& g.enabled
    &&& (if c.has_window_management {
        &&& g.entries@.len() == 5
        &&& is_item(g.entries@[0], MenuId::NewNote)
        &&& is_item(g.entries@[1], MenuId::NewWindow)
        &&& is_item(g.entries@[2], MenuId::CloseWindow)
        &&& g.entries@[3] is Separator
        &&& is_item(g.entries@[4], MenuId::OpenNote)
    } else {
        &&& g.entries@.len() == 3
        &&& is_item(g.entries@[0], MenuId::NewNote)
        &&& g.entries@[1] is Separator
        &&& is_item(g.entries@[2], MenuId::OpenNote)
    })
    &&& items_ids(entries_items(g.entries@)) == spec_file_ids(c)
    &&& items_canonical(entries_items(g.entries@))
}

/// The Edit group exactly as built: the platform's editing items and no
/// selectable item.
pub open spec fn edit_group_layout(g: MenuGroup) -> bool {
    &&& g.label@ == "Edit"@
    &&& g.enabled
    &&& g.entries@.len() == 7
    &&& is_predef(g.entries@[0], PredefinedKind::Undo)
    &&& is_predef(g.entries@[1], PredefinedKind::Redo)
    &&& g.entries@[2] is Separator
    &&& is_predef(g.entries@[3], PredefinedKind::Cut)
    &&& is_predef(g.entries@[4], PredefinedKind::Copy)
    &&& is_predef(g.entries@[5], PredefinedKind::Paste)
    &&& is_predef(g.entries@[6], PredefinedKind::SelectAll)
    &&& entries_items(g.entries@) == Seq::<MenuItem>::empty()
}

/// The View group exactly as built: the theme toggle, the three theme
/// choices, and the visual-effects toggle.
pub open spec fn view_group_layout(g: MenuGroup) -> bool {
    &&& g.label@ == "View"@
    &&& g.enabled
    &&& g.entries@.len() == 7
    &&& is_item(g.entries@[0], MenuId::CycleTheme)
    &&& g.entries@[1] is Separator
    &&& is_item(g.entries@[2], MenuId::ThemeSystem)
    &&& is_item(g.entries@[3], MenuId::ThemeLight)
    &&& is_item(g.entries@[4], MenuId::ThemeDark)
    &&& g.entries@[5] is Separator
    &&& is_item(g.entries@[6], MenuId::ToggleExplosions)
    &&& items_ids(entries_items(g.entries@)) == seq![
        MenuId::CycleTheme,
        MenuId::ThemeSystem,
        MenuId::ThemeLight,
        MenuId::ThemeDark,
        MenuId::ToggleExplosions,
    ]
    &&& items_canonical(entries_items(g.entries@))
}

/// The identifiers of the File group's items, in display order.
pub open spec fn spec_file_ids(c: MenuConfig) -> Seq<MenuId> {
    if c.has_window_management {
        seq![MenuId::NewNote, MenuId::NewWindow, MenuId::CloseWindow, MenuId::OpenNote]
    } else {
        seq![MenuId::NewNote, MenuId::OpenNote]
    }
}

/// The identifiers of the View group's items, in display order; empty when
/// the configuration has no View group.
pub open spec fn spec_view_ids(c: MenuConfig) -> Seq<MenuId> {
    if c.has_view_menu {
        seq![
            MenuId::CycleTheme,
            MenuId::ThemeSystem,
            MenuId::ThemeLight,
            MenuId::ThemeDark,
            MenuId::ToggleExplosions,
        ]
    } else {
        Seq::empty()
    }
}

/// Every item identifier of the tree built from `c`, in display order. The
/// application and Edit groups hold only predefined items and contribute
/// none.
pub open spec fn spec_config_ids(c: MenuConfig) -> Seq<MenuId> {
    spec_file_ids(c) + spec_view_ids(c)
}

/// The display label of the item `id`.
fn item_label(id: MenuId) -> (r: String)
    ensures
        r@ == spec_item_label(id),
{
    match id {
        MenuId::NewNote => "New Note".to_owned(),
        MenuId::NewWindow => "New Window".to_owned(),
        MenuId::CloseWindow => "Close Window".to_owned(),
        MenuId::OpenNote => "Open Note...".to_owned(),
        MenuId::CycleTheme => "Toggle Theme".to_owned(),
        MenuId::ThemeSystem => "System".to_owned(),
        MenuId::ThemeLight => "Light".to_owned(),
        MenuId::ThemeDark => "Dark".to_owned(),
        MenuId::ToggleExplosions => "Toggle Explosions".to_owned(),
    }
}

/// Makes the canonical item for `id`.
fn mk_item(id: MenuId) -> (it: MenuItem)
    ensures
        it.id == id,
        canonical_item(it),
{
    let accel = match id {
        MenuId::NewNote => Some(Accel { cmd_or_ctrl: true, shift: false, key: 'N' }),
        MenuId::NewWindow => Some(Accel { cmd_or_ctrl: true, shift: true, key: 'N' }),
        MenuId::CloseWindow => Some(Accel { cmd_or_ctrl: true, shift: false, key: 'W' }),
        MenuId::OpenNote => Some(Accel { cmd_or_ctrl: true, shift: false, key: 'P' }),
        MenuId::CycleTheme => Some(Accel { cmd_or_ctrl: true, shift: false, key: 'D' }),
        MenuId::ThemeSystem => None,
        MenuId::ThemeLight => None,
        MenuId::ThemeDark => None,
        MenuId::ToggleExplosions => Some(Accel { cmd_or_ctrl: true, shift: false, key: 'E' }),
    };
    MenuItem { id, label: item_label(id), enabled: true, accel }
}

/// The application group: the platform's standard lifecycle items. It holds
/// no selectable item.
fn build_app_group() -> (g: MenuGroup)
    ensures
        app_group_layout(g),
{
    let entries: Vec<MenuEntry> = vec![
        MenuEntry::Predefined {
            kind: PredefinedKind::About,
            title: Some("About Drift".to_owned()),
        },
        MenuEntry::Separator,
        MenuEntry::Predefined { kind: PredefinedKind::Services, title: None },
        MenuEntry::Separator,
        MenuEntry::Predefined { kind: PredefinedKind::Hide, title: None },
        MenuEntry::Predefined { kind: PredefinedKind::HideOthers, title: None },
        MenuEntry::Predefined { kind: PredefinedKind::ShowAll, title: None },
        MenuEntry::Separator,
        MenuEntry::Predefined { kind: PredefinedKind::Quit, title: None },
    ];
    proof {
        reveal_with_fuel(entries_items, 11);
        assert(entries_items(entries@) =~= Seq::<MenuItem>::empty());
    }
    MenuGroup { label: "Drift".to_owned(), enabled: true, entries }
}

/// The File group: note and window actions. Window management is present
/// only when the configuration has it.
fn build_file_group(c: &MenuConfig) -> (g: MenuGroup)
    ensures
        file_group_layout(*c, g),
{
    let mut entries: Vec<MenuEntry> = Vec::new();
    entries.push(MenuEntry::Item(mk_item(MenuId::NewNote)));
    if c.has_window_management {
        entries.push(MenuEntry::Item(mk_item(MenuId::NewWindow)));
        entries.push(MenuEntry::Item(mk_item(MenuId::CloseWindow)));
    }
    entries.push(MenuEntry::Separator);
    entries.push(MenuEntry::Item(mk_item(MenuId::OpenNote)));
    proof {
        reveal_with_fuel(entries_items, 7);
        assert(items_ids(entries_items(entries@)) =~= spec_file_ids(*c));
    }
    MenuGroup { label: "File".to_owned(), enabled: true, entries }
}

/// The Edit group: the platform's standard editing items. It holds no
/// selectable item.
fn build_edit_group() -> (g: MenuGroup)
    ensures
        edit_group_layout(g),
{
    let entries: Vec<MenuEntry> = vec![
        MenuEntry::Predefined { kind: PredefinedKind::Undo, title: None },
        MenuEntry::Predefined { kind: PredefinedKind::Redo, title: None },
        MenuEntry::Separator,
        MenuEntry::Predefined { kind: PredefinedKind::Cut, title: None },
        MenuEntry::Predefined { kind: PredefinedKind::Copy, title: None },
        MenuEntry::Predefined { kind: PredefinedKind::Paste, title: None },
        MenuEntry::Predefined { kind: PredefinedKind::SelectAll, title: None },
    ];
    proof {
        reveal_with_fuel(entries_items, 9);
        assert(entries_items(entries@) =~= Seq::<MenuItem>::empty());
    }
    MenuGroup { label: "Edit".to_owned(), enabled: true, entries }
}

/// The View group: the theme items and the visual-effects toggle.
fn build_view_group() -> (g: MenuGroup)
    ensures
        view_group_layout(g),
{
    let entries: Vec<MenuEntry> = vec![
        MenuEntry::Item(mk_item(MenuId::CycleTheme)),
        MenuEntry::Separator,
        MenuEntry::Item(mk_item(MenuId::ThemeSystem)),
        MenuEntry::Item(mk_item(MenuId::ThemeLight)),
        MenuEntry::Item(mk_item(MenuId::ThemeDark)),
        MenuEntry::Separator,
        MenuEntry::Item(mk_item(MenuId::ToggleExplosions)),
    ];
    proof {
        reveal_with_fuel(entries_items, 9);
        assert(items_ids(entries_items(entries@)) =~= (seq![
            MenuId::CycleTheme,
            MenuId::ThemeSystem,
            MenuId::ThemeLight,
            MenuId::ThemeDark,
            MenuId::ToggleExplosions,
        ]));
    }
    MenuGroup { label: "View".to_owned(), enabled: true, entries }
}

/// The identifiers a configuration produces are pairwise distinct, whichever
/// capabilities are chosen.
proof fn lemma_config_ids_distinct(c: MenuConfig, i: int, j: int)
    requires
        0 <= i < spec_config_ids(c).len(),
        0 <= j < spec_config_ids(c).len(),
        i != j,
    ensures
        spec_config_ids(c)[i] != spec_config_ids(c)[j],
{
}

/// Distinct items never share an accelerator: the accelerator table assigns
/// every key at most once.
proof fn lemma_accel_table_injective(a: MenuId, b: MenuId)
    requires
        a != b,
        spec_item_accel(a) is Some,
        spec_item_accel(b) is Some,
    ensures
        spec_item_accel(a) != spec_item_accel(b),
{
}

/// Builds the menu tree for the capability set `c`: the application group,
/// File and Edit, and — in configurations that have it — the View group, in
/// that order. Every item is enabled and carries its canonical label and
/// accelerator; the item identifiers are exactly `spec_config_ids(c)`, in
/// display order, and the tree is well-formed (pairwise distinct identifiers
/// and accelerators).
pub fn build_tree(c: &MenuConfig) -> (t: MenuTree)
    ensures
        t.groups@.len() == (if c.has_view_menu { 4int } else { 3int }),
        app_group_layout(t.groups@[0]),
        file_group_layout(*c, t.groups@[1]),
        edit_group_layout(t.groups@[2]),
        c.has_view_menu ==> view_group_layout(t.groups@[3]),
        t.item_ids() =~= spec_config_ids(*c),
        items_canonical(t.items()),
        t.wf(),
        forall|i: int, j: int|
            0 <= i < t.items().len() && 0 <= j < t.items().len() && i != j
                ==> crate::ids::spec_id_str((#[trigger] t.items()[i]).id)
                != crate::ids::spec_id_str((#[trigger] t.items()[j]).id),
{
    let app_group = build_app_group();
    let file_group = build_file_group(c);
    let edit_group = build_edit_group();
    let mut groups: Vec<MenuGroup> = Vec::new();
    groups.push(app_group);
    groups.push(file_group);
    groups.push(edit_group);
    if c.has_view_menu {
        groups.push(build_view_group());
    }
    let t = MenuTree { groups };
    proof {
        reveal_with_fuel(groups_items, 6);
        assert(t.item_ids() =~= spec_config_ids(*c));
        assert(items_canonical(t.items()));
        assert forall|i: int, j: int|
            0 <= i < t.items().len() && 0 <= j < t.items().len() && i != j implies (
        #[trigger] t.items()[i]).id != (#[trigger] t.items()[j]).id by {
            lemma_config_ids_distinct(*c, i, j);
            assert(t.item_ids()[i] == t.items()[i].id);
            assert(t.item_ids()[j] == t.items()[j].id);
        }
        assert forall|i: int, j: int|
            0 <= i < t.items().len() && 0 <= j < t.items().len() && i != j implies
            crate::ids::spec_id_str((#[trigger] t.items()[i]).id) != crate::ids::spec_id_str(
            (#[trigger] t.items()[j]).id) by {
            crate::tree::lemma_wf_tree_id_strings_distinct(t, i, j);
        }
        assert forall|i: int, j: int|
            0 <= i < t.items().len() && 0 <= j < t.items().len() && i != j && (
        #[trigger] t.items()[i]).accel is Some && (
        #[trigger] t.items()[j]).accel is Some implies t.items()[i].accel != t.items()[j].accel by {
            lemma_accel_table_injective(t.items()[i].id, t.items()[j].id);
        }
    }
    t
}

} // verus!
