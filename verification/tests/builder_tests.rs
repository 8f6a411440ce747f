//! Builder behaviour: group layout per configuration, unique identifiers,
//! unambiguous accelerators, and the items each variant carries.

use drift_menu::builder::build_tree;
use drift_menu::builder::MenuConfig;
use drift_menu::dispatch::lookup_event;
use drift_menu::ids::id_string;
use drift_menu::ids::MenuId;
use drift_menu::tree::MenuEntry;
use drift_menu::tree::MenuGroup;
use drift_menu::tree::MenuItem;
use drift_menu::tree::MenuTree;
use drift_menu::tree::PredefinedKind;

fn collect_items_of_entries<'a>(entries: &'a [MenuEntry], out: &mut Vec<&'a MenuItem>) {
    for e in entries {
        match e {
            MenuEntry::Item(it) => out.push(it),
            MenuEntry::Group(g) => collect_items_of_entries(&g.entries, out),
            MenuEntry::Predefined { .. } => {}
            MenuEntry::Separator => {}
        }
    }
}

fn collect_items(tree: &MenuTree) -> Vec<&MenuItem> {
    let mut out = Vec::new();
    for g in &tree.groups {
        collect_items_of_entries(&g.entries, &mut out);
    }
    out
}

fn group_labels(tree: &MenuTree) -> Vec<&str> {
    tree.groups.iter().map(|g| g.label.as_str()).collect()
}

#[test]
fn full_variant_has_four_groups_in_order() {
    let tree = build_tree(&MenuConfig::full());
    assert_eq!(group_labels(&tree), vec!["Drift", "File", "Edit", "View"]);
}

#[test]
fn minimal_variant_has_three_groups_in_order() {
    let tree = build_tree(&MenuConfig::minimal());
    assert_eq!(group_labels(&tree), vec!["Drift", "File", "Edit"]);
}

#[test]
fn full_variant_identifiers_in_display_order() {
    let tree = build_tree(&MenuConfig::full());
    let ids: Vec<MenuId> = collect_items(&tree).iter().map(|it| it.id).collect();
    assert_eq!(
        ids,
        vec![
            MenuId::NewNote,
            MenuId::NewWindow,
            MenuId::CloseWindow,
            MenuId::OpenNote,
            MenuId::CycleTheme,
            MenuId::ThemeSystem,
            MenuId::ThemeLight,
            MenuId::ThemeDark,
            MenuId::ToggleExplosions,
        ]
    );
}

#[test]
fn minimal_variant_identifiers_in_display_order() {
    let tree = build_tree(&MenuConfig::minimal());
    let ids: Vec<MenuId> = collect_items(&tree).iter().map(|it| it.id).collect();
    assert_eq!(ids, vec![MenuId::NewNote, MenuId::OpenNote]);
}

#[test]
fn identifier_strings_pairwise_distinct_in_every_variant() {
    for config in [MenuConfig::full(), MenuConfig::minimal()] {
        let tree = build_tree(&config);
        let ids: Vec<String> = collect_items(&tree)
            .iter()
            .map(|it| id_string(it.id))
            .collect();
        for i in 0..ids.len() {
            for j in 0..ids.len() {
                if i != j {
                    assert_ne!(ids[i], ids[j]);
                }
            }
        }
    }
}

#[test]
fn accelerators_pairwise_distinct_in_full_variant() {
    let tree = build_tree(&MenuConfig::full());
    let items = collect_items(&tree);
    for i in 0..items.len() {
        for j in 0..items.len() {
            if i != j {
                if let (Some(a), Some(b)) = (items[i].accel, items[j].accel) {
                    assert_ne!(a, b);
                }
            }
        }
    }
}

#[test]
fn toggle_explosions_exists_only_in_full_variant() {
    let full = build_tree(&MenuConfig::full());
    assert!(collect_items(&full)
        .iter()
        .any(|it| it.id == MenuId::ToggleExplosions));
    let minimal = build_tree(&MenuConfig::minimal());
    assert!(!collect_items(&minimal)
        .iter()
        .any(|it| it.id == MenuId::ToggleExplosions));
}

#[test]
fn every_item_identifier_is_mapped() {
    let tree = build_tree(&MenuConfig::full());
    for it in collect_items(&tree) {
        assert!(lookup_event(id_string(it.id).as_str()).is_some());
    }
}

#[test]
fn items_are_enabled_with_their_labels_and_accelerators() {
    let tree = build_tree(&MenuConfig::full());
    let items = collect_items(&tree);
    for it in &items {
        assert!(it.enabled);
    }
    let new_note = items.iter().find(|it| it.id == MenuId::NewNote).unwrap();
    assert_eq!(new_note.label, "New Note");
    let accel = new_note.accel.unwrap();
    assert!(accel.cmd_or_ctrl);
    assert!(!accel.shift);
    assert_eq!(accel.key, 'N');
    let new_window = items.iter().find(|it| it.id == MenuId::NewWindow).unwrap();
    assert_eq!(new_window.label, "New Window");
    let accel = new_window.accel.unwrap();
    assert!(accel.cmd_or_ctrl);
    assert!(accel.shift);
    assert_eq!(accel.key, 'N');
    let theme_light = items.iter().find(|it| it.id == MenuId::ThemeLight).unwrap();
    assert_eq!(theme_light.label, "Light");
    assert!(theme_light.accel.is_none());
}

#[test]
fn application_group_holds_the_platform_lifecycle_items() {
    let tree = build_tree(&MenuConfig::full());
    let app_group: &MenuGroup = &tree.groups[0];
    assert!(app_group.enabled);
    let kinds: Vec<Option<PredefinedKind>> = app_group
        .entries
        .iter()
        .map(|e| match e {
            MenuEntry::Predefined { kind, .. } => Some(*kind),
            _ => None,
        })
        .collect();
    assert_eq!(
        kinds,
        vec![
            Some(PredefinedKind::About),
            None,
            Some(PredefinedKind::Services),
            None,
            Some(PredefinedKind::Hide),
            Some(PredefinedKind::HideOthers),
            Some(PredefinedKind::ShowAll),
            None,
            Some(PredefinedKind::Quit),
        ]
    );
    match &app_group.entries[0] {
        MenuEntry::Predefined { title, .. } => {
            assert_eq!(title.as_deref(), Some("About Drift"));
        }
        _ => panic!("expected the about item first"),
    }
}

#[test]
fn edit_group_holds_the_platform_editing_items() {
    let tree = build_tree(&MenuConfig::minimal());
    let edit_group = &tree.groups[2];
    let kinds: Vec<Option<PredefinedKind>> = edit_group
        .entries
        .iter()
        .map(|e| match e {
            MenuEntry::Predefined { kind, .. } => Some(*kind),
            _ => None,
        })
        .collect();
    assert_eq!(
        kinds,
        vec![
            Some(PredefinedKind::Undo),
            Some(PredefinedKind::Redo),
            None,
            Some(PredefinedKind::Cut),
            Some(PredefinedKind::Copy),
            Some(PredefinedKind::Paste),
            Some(PredefinedKind::SelectAll),
        ]
    );
}

#[test]
fn configurations_expose_their_capabilities() {
    let full = MenuConfig::full();
    assert!(full.has_view_menu);
    assert!(full.has_window_management);
    assert!(full.has_shell_integration);
    let minimal = MenuConfig::minimal();
    assert!(!minimal.has_view_menu);
    assert!(!minimal.has_window_management);
    assert!(!minimal.has_shell_integration);
}
