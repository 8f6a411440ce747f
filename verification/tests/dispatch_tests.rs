//! Dispatcher behaviour: mapped identifiers publish exactly once, unknown
//! identifiers are silent no-ops, and repeated selections publish repeatedly.

use drift_menu::dispatch::dispatch_all;
use drift_menu::dispatch::event_name;
use drift_menu::dispatch::handle_selection;
use drift_menu::dispatch::lookup_event;
use drift_menu::ids::id_string;
use drift_menu::ids::parse_id;
use drift_menu::ids::MenuId;

const ALL_IDS: [MenuId; 9] = [
    MenuId::NewNote,
    MenuId::NewWindow,
    MenuId::CloseWindow,
    MenuId::OpenNote,
    MenuId::CycleTheme,
    MenuId::ThemeSystem,
    MenuId::ThemeLight,
    MenuId::ThemeDark,
    MenuId::ToggleExplosions,
];

#[test]
fn new_note_publishes_menu_new_note() {
    assert_eq!(lookup_event("new_note"), Some("menu-new-note".to_string()));
    let mut log: Vec<String> = Vec::new();
    let published = handle_selection("new_note", &mut log);
    assert!(published);
    assert_eq!(log, vec!["menu-new-note".to_string()]);
}

#[test]
fn toggle_explosions_publishes_its_event() {
    assert_eq!(
        lookup_event("toggle_explosions"),
        Some("menu-toggle-explosions".to_string())
    );
}

#[test]
fn unknown_action_publishes_nothing() {
    assert_eq!(lookup_event("unknown_action"), None);
    let mut log: Vec<String> = Vec::new();
    let published = handle_selection("unknown_action", &mut log);
    assert!(!published);
    assert!(log.is_empty());
}

#[test]
fn empty_string_publishes_nothing() {
    assert_eq!(lookup_event(""), None);
    let mut log: Vec<String> = Vec::new();
    assert!(!handle_selection("", &mut log));
    assert!(log.is_empty());
}

#[test]
fn every_mapped_identifier_publishes_exactly_once() {
    for id in ALL_IDS {
        let mut log: Vec<String> = Vec::new();
        let published = handle_selection(id_string(id).as_str(), &mut log);
        assert!(published);
        assert_eq!(log.len(), 1);
        assert_eq!(log[0], event_name(id));
    }
}

#[test]
fn event_vocabulary_is_fixed() {
    assert_eq!(event_name(MenuId::NewNote), "menu-new-note");
    assert_eq!(event_name(MenuId::NewWindow), "menu-new-window");
    assert_eq!(event_name(MenuId::CloseWindow), "menu-close-window");
    assert_eq!(event_name(MenuId::OpenNote), "menu-open-note");
    assert_eq!(event_name(MenuId::CycleTheme), "menu-cycle-theme");
    assert_eq!(event_name(MenuId::ThemeSystem), "menu-theme-system");
    assert_eq!(event_name(MenuId::ThemeLight), "menu-theme-light");
    assert_eq!(event_name(MenuId::ThemeDark), "menu-theme-dark");
    assert_eq!(event_name(MenuId::ToggleExplosions), "menu-toggle-explosions");
}

#[test]
fn repeated_selection_publishes_twice() {
    let mut log: Vec<String> = Vec::new();
    assert!(handle_selection("cycle_theme", &mut log));
    assert!(handle_selection("cycle_theme", &mut log));
    assert_eq!(
        log,
        vec!["menu-cycle-theme".to_string(), "menu-cycle-theme".to_string()]
    );
}

#[test]
fn dispatch_all_skips_inert_selections() {
    let selections = vec![
        "new_note".to_string(),
        "unknown_action".to_string(),
        "cycle_theme".to_string(),
        "".to_string(),
        "theme_dark".to_string(),
    ];
    let log = dispatch_all(&selections);
    assert_eq!(
        log,
        vec![
            "menu-new-note".to_string(),
            "menu-cycle-theme".to_string(),
            "menu-theme-dark".to_string(),
        ]
    );
}

#[test]
fn parse_recovers_every_identifier() {
    for id in ALL_IDS {
        assert_eq!(parse_id(id_string(id).as_str()), Some(id));
    }
}

#[test]
fn identifier_strings_are_stable() {
    assert_eq!(id_string(MenuId::NewNote), "new_note");
    assert_eq!(id_string(MenuId::NewWindow), "new_window");
    assert_eq!(id_string(MenuId::CloseWindow), "close_window");
    assert_eq!(id_string(MenuId::OpenNote), "open_note");
    assert_eq!(id_string(MenuId::CycleTheme), "cycle_theme");
    assert_eq!(id_string(MenuId::ThemeSystem), "theme_system");
    assert_eq!(id_string(MenuId::ThemeLight), "theme_light");
    assert_eq!(id_string(MenuId::ThemeDark), "theme_dark");
    assert_eq!(id_string(MenuId::ToggleExplosions), "toggle_explosions");
}

#[test]
fn near_miss_identifiers_are_inert() {
    assert_eq!(lookup_event("new_note "), None);
    assert_eq!(lookup_event("New_Note"), None);
    assert_eq!(lookup_event("new-note"), None);
}
