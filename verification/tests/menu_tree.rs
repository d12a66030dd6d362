use menu_core::menu::{build_menu, MenuEntry, MenuSpec, PredefinedItemSpec};
use menu_core::platform::Platform;

fn titles(menu: &MenuSpec) -> Vec<String> {
    menu.submenus.iter().map(|s| s.title.clone()).collect()
}

fn identifiers(menu: &MenuSpec) -> Vec<String> {
    let mut ids: Vec<String> = Vec::new();
    for submenu in &menu.submenus {
        for entry in &submenu.entries {
            if let MenuEntry::Item(item) = entry {
                ids.push(item.identifier.clone());
            }
        }
    }
    ids
}

#[test]
fn top_level_layout_without_window_menu() {
    for p in [Platform::Windows, Platform::Linux] {
        let menu = build_menu(p);
        assert_eq!(titles(&menu), vec!["File", "Edit", "View", "Help"]);
    }
}

#[test]
fn top_level_layout_with_window_menu() {
    let menu = build_menu(Platform::MacOs);
    assert_eq!(titles(&menu), vec!["File", "Edit", "View", "Window", "Help"]);
}

#[test]
fn file_submenu_omits_quit_where_quit_is_native() {
    let menu = build_menu(Platform::MacOs);
    let file = &menu.submenus[0];
    assert_eq!(file.title, "File");
    assert!(file.enabled);
    assert_eq!(file.entries.len(), 3);
    match &file.entries[0] {
        MenuEntry::Item(item) => {
            assert_eq!(item.identifier, "new_chat");
            assert_eq!(item.label, "New Chat");
            assert!(item.enabled);
            assert_eq!(item.accelerator.as_deref(), Some("CmdOrCtrl+N"));
        }
        other => panic!("expected the New Chat item, got {:?}", other),
    }
    assert_eq!(
        file.entries[1],
        MenuEntry::Predefined(PredefinedItemSpec::Separator)
    );
    match &file.entries[2] {
        MenuEntry::Item(item) => {
            assert_eq!(item.identifier, "close");
            assert_eq!(item.label, "Close Window");
            assert_eq!(item.accelerator.as_deref(), Some("CmdOrCtrl+W"));
        }
        other => panic!("expected the Close Window item, got {:?}", other),
    }
    assert!(!identifiers(&menu).contains(&"quit".to_string()));
}

#[test]
fn file_submenu_holds_quit_elsewhere() {
    for p in [Platform::Windows, Platform::Linux] {
        let menu = build_menu(p);
        let file = &menu.submenus[0];
        assert_eq!(file.entries.len(), 4);
        match &file.entries[3] {
            MenuEntry::Item(item) => {
                assert_eq!(item.identifier, "quit");
                assert_eq!(item.label, "Quit");
                assert!(item.enabled);
                assert_eq!(item.accelerator.as_deref(), Some("CmdOrCtrl+Q"));
            }
            other => panic!("expected the Quit item, got {:?}", other),
        }
    }
}

#[test]
fn edit_submenu_is_predefined_only() {
    for p in [Platform::MacOs, Platform::Windows, Platform::Linux] {
        let menu = build_menu(p);
        let edit = &menu.submenus[1];
        assert_eq!(edit.title, "Edit");
        let expected = vec![
            PredefinedItemSpec::Undo,
            PredefinedItemSpec::Redo,
            PredefinedItemSpec::Separator,
            PredefinedItemSpec::Cut,
            PredefinedItemSpec::CopyText,
            PredefinedItemSpec::Paste,
            PredefinedItemSpec::SelectAll,
        ];
        assert_eq!(edit.entries.len(), expected.len());
        for (entry, want) in edit.entries.iter().zip(expected.iter()) {
            assert_eq!(entry, &MenuEntry::Predefined(*want));
        }
    }
}

#[test]
fn view_submenu_holds_the_custom_items() {
    let menu = build_menu(Platform::Linux);
    let view = &menu.submenus[2];
    assert_eq!(view.title, "View");
    assert_eq!(view.entries.len(), 5);
    let ids: Vec<&str> = view
        .entries
        .iter()
        .filter_map(|e| match e {
            MenuEntry::Item(item) => Some(item.identifier.as_str()),
            MenuEntry::Predefined(_) => None,
        })
        .collect();
    assert_eq!(ids, vec!["clear_chat", "settings", "reload", "toggle_fullscreen"]);
    match &view.entries[4] {
        MenuEntry::Item(item) => {
            assert_eq!(item.label, "Toggle Fullscreen");
            assert_eq!(item.accelerator.as_deref(), Some("F11"));
        }
        other => panic!("expected the Toggle Fullscreen item, got {:?}", other),
    }
}

#[test]
fn window_submenu_sits_between_view_and_help() {
    let menu = build_menu(Platform::MacOs);
    assert_eq!(menu.submenus[2].title, "View");
    let window = &menu.submenus[3];
    assert_eq!(window.title, "Window");
    assert_eq!(menu.submenus[4].title, "Help");
    let expected = vec![
        PredefinedItemSpec::Minimize,
        PredefinedItemSpec::Maximize,
        PredefinedItemSpec::Separator,
        PredefinedItemSpec::CloseWindow,
    ];
    assert_eq!(window.entries.len(), expected.len());
    for (entry, want) in window.entries.iter().zip(expected.iter()) {
        assert_eq!(entry, &MenuEntry::Predefined(*want));
    }
}

#[test]
fn help_submenu_holds_about_without_accelerator() {
    for p in [Platform::MacOs, Platform::Windows, Platform::Linux] {
        let menu = build_menu(p);
        let help = menu.submenus.last().unwrap();
        assert_eq!(help.title, "Help");
        assert_eq!(help.entries.len(), 1);
        match &help.entries[0] {
            MenuEntry::Item(item) => {
                assert_eq!(item.identifier, "about");
                assert_eq!(item.label, "About");
                assert_eq!(item.accelerator, None);
            }
            other => panic!("expected the About item, got {:?}", other),
        }
    }
}

#[test]
fn identifiers_are_unique_on_every_platform() {
    for p in [Platform::MacOs, Platform::Windows, Platform::Linux] {
        let ids = identifiers(&build_menu(p));
        for (i, a) in ids.iter().enumerate() {
            for b in ids.iter().skip(i + 1) {
                assert_ne!(a, b, "duplicate identifier in the tree");
            }
        }
    }
}
