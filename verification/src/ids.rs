//! The identifier scheme: a closed, typed enumeration of every menu item that
//! can be selected, together with its stable string identifier.
//!
//! The string identifiers are the public contract between the menu tree and
//! the selection dispatcher: the host runtime reports a selection as a string,
//! and `parse_id` recovers the typed identifier.

use vstd::prelude::*;

verus! {

/// The typed identifier of a selectable menu item. Predefined platform items
/// and separators carry no identifier and are not listed here.
#[derive(Clone, Copy, Debug, PartialEq, Eq, Structural)]
pub enum MenuId {
    NewNote,
    NewWindow,
    CloseWindow,
    OpenNote,
    CycleTheme,
    ThemeSystem,
    ThemeLight,
    ThemeDark,
    ToggleExplosions,
}

/// The stable string identifier of a menu item: a short, lower-case,
/// underscore-separated token naming the action.
pub open spec fn spec_id_str(id: MenuId) -> Seq<char> {
    match id {
        MenuId::NewNote => "new_note"@,
        MenuId::NewWindow => "new_window"@,
        MenuId::CloseWindow => "close_window"@,
        MenuId::OpenNote => "open_note"@,
        MenuId::CycleTheme => "cycle_theme"@,
        MenuId::ThemeSystem => "theme_system"@,
        MenuId::ThemeLight => "theme_light"@,
        MenuId::ThemeDark => "theme_dark"@,
        MenuId::ToggleExplosions => "toggle_explosions"@,
    }
}

/// The string identifier of `id`, as handed to the host runtime.
pub fn id_string(id: MenuId) -> (r: String)
    ensures
        r@ == spec_id_str(id),
{
    match id {
        MenuId::NewNote => "new_note".to_owned(),
        MenuId::NewWindow => "new_window".to_owned(),
        MenuId::CloseWindow => "close_window".to_owned(),
        MenuId::OpenNote => "open_note".to_owned(),
        MenuId::CycleTheme => "cycle_theme".to_owned(),
        MenuId::ThemeSystem => "theme_system".to_owned(),
        MenuId::ThemeLight => "theme_light".to_owned(),
        MenuId::ThemeDark => "theme_dark".to_owned(),
        MenuId::ToggleExplosions => "toggle_explosions".to_owned(),
    }
}

/// Which typed identifier, if any, a reported selection string denotes.
/// Strings that name no menu item (predefined platform items and separators
/// report none, and arbitrary strings may arrive) denote nothing.
pub open spec fn spec_parse_id(s: Seq<char>) -> Option<MenuId> {
    if s == "new_note"@ {
        Some(MenuId::NewNote)
    } else if s == "new_window"@ {
        Some(MenuId::NewWindow)
    } else if s == "close_window"@ {
        Some(MenuId::CloseWindow)
    } else if s == "open_note"@ {
        Some(MenuId::OpenNote)
    } else if s == "cycle_theme"@ {
        Some(MenuId::CycleTheme)
    } else if s == "theme_system"@ {
        Some(MenuId::ThemeSystem)
    } else if s == "theme_light"@ {
        Some(MenuId::ThemeLight)
    } else if s == "theme_dark"@ {
        Some(MenuId::ThemeDark)
    } else if s == "toggle_explosions"@ {
        Some(MenuId::ToggleExplosions)
    } else {
        None
    }
}

/// Recovers the typed identifier from a selection string reported by the host
/// runtime, or `None` for a string that names no menu item.
pub fn parse_id(s: &str) -> (r: Option<MenuId>)
    ensures
        r == spec_parse_id(s@),
{
    let t = s.to_owned();
    if t == "new_note".to_owned() {
        Some(MenuId::NewNote)
    } else if t == "new_window".to_owned() {
        Some(MenuId::NewWindow)
    } else if t == "close_window".to_owned() {
        Some(MenuId::CloseWindow)
    } else if t == "open_note".to_owned() {
        Some(MenuId::OpenNote)
    } else if t == "cycle_theme".to_owned() {
        Some(MenuId::CycleTheme)
    } else if t == "theme_system".to_owned() {
        Some(MenuId::ThemeSystem)
    } else if t == "theme_light".to_owned() {
        Some(MenuId::ThemeLight)
    } else if t == "theme_dark".to_owned() {
        Some(MenuId::ThemeDark)
    } else if t == "toggle_explosions".to_owned() {
        Some(MenuId::ToggleExplosions)
    } else {
        None
    }
}

/// Law: parsing an item's own string identifier recovers the item. The string
/// scheme therefore loses no information, and renaming an identifier without
/// updating the parser would break this law.
pub proof fn lemma_id_string_round_trip(id: MenuId)
    ensures
        spec_parse_id(spec_id_str(id)) == Some(id),
{
    reveal_strlit("new_note");
    reveal_strlit("new_window");
    reveal_strlit("close_window");
    reveal_strlit("open_note");
    reveal_strlit("cycle_theme");
    reveal_strlit("theme_system");
    reveal_strlit("theme_light");
    reveal_strlit("theme_dark");
    reveal_strlit("toggle_explosions");
    assert("new_note"@.len() == 8);
    assert("new_window"@.len() == 10);
    assert("close_window"@.len() == 12);
    assert("open_note"@.len() == 9);
    assert("cycle_theme"@.len() == 11);
    assert("theme_system"@.len() == 12);
    assert("theme_light"@.len() == 11);
    assert("theme_dark"@.len() == 10);
    assert("toggle_explosions"@.len() == 17);
    assert("new_window"@[0] == 'n' && "theme_dark"@[0] == 't');
    assert("close_window"@[0] == 'c' && "theme_system"@[0] == 't');
    assert("cycle_theme"@[0] == 'c' && "theme_light"@[0] == 't');
    assert("theme_dark"@ != "new_window"@);
    assert("theme_system"@ != "close_window"@);
    assert("theme_light"@ != "cycle_theme"@);
}

/// Law: the string identifier scheme is injective — distinct menu items carry
/// distinct string identifiers.
pub proof fn lemma_id_str_injective(a: MenuId, b: MenuId)
    requires
        a != b,
    ensures
        spec_id_str(a) != spec_id_str(b),
{
    lemma_id_string_round_trip(a);
    lemma_id_string_round_trip(b);
}

} // verus!
