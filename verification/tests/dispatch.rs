use menu_core::menu::{build_menu, MenuEntry};
use menu_core::platform::Platform;
use menu_core::router::{is_terminal, next_fullscreen, route, Action, ActivationEvent, WindowOp};

fn event(id: &str) -> ActivationEvent {
    ActivationEvent { identifier: id.to_string() }
}

#[test]
fn forward_actions_carry_their_channel() {
    let table = [
        ("new_chat", "menu:new-chat"),
        ("clear_chat", "menu:clear-chat"),
        ("settings", "menu:settings"),
        ("about", "menu:about"),
    ];
    for (id, channel) in table {
        match route(&event(id)) {
            Action::Forward { channel: c } => assert_eq!(c, channel),
            other => panic!("{} should forward, got {:?}", id, other),
        }
    }
}

#[test]
fn direct_actions_name_their_window_operation() {
    assert_eq!(route(&event("reload")), Action::Direct { op: WindowOp::Reload });
    assert_eq!(
        route(&event("toggle_fullscreen")),
        Action::Direct { op: WindowOp::ToggleFullscreen }
    );
    assert_eq!(route(&event("close")), Action::Direct { op: WindowOp::Close });
}

#[test]
fn quit_terminates_with_status_zero() {
    let action = route(&event("quit"));
    assert_eq!(action, Action::Quit { status: 0 });
    assert!(is_terminal(&action));
}

#[test]
fn only_quit_is_terminal() {
    for id in ["new_chat", "clear_chat", "settings", "about", "reload", "toggle_fullscreen", "close", "nonsense"] {
        assert!(!is_terminal(&route(&event(id))));
    }
}

#[test]
fn unknown_identifiers_are_silently_ignored() {
    for id in ["", "nonsense", "New_Chat", "quit ", "menu:new-chat"] {
        assert_eq!(route(&event(id)), Action::Ignore, "{:?} must be a no-op", id);
    }
}

#[test]
fn toggle_fullscreen_twice_restores_the_flag() {
    let toggle = route(&event("toggle_fullscreen"));
    for start in [false, true] {
        let once = next_fullscreen(&toggle, start);
        assert_eq!(once, !start);
        let twice = next_fullscreen(&toggle, once);
        assert_eq!(twice, start);
    }
}

#[test]
fn non_toggle_actions_leave_the_flag_alone() {
    for id in ["new_chat", "clear_chat", "settings", "about", "reload", "close", "quit", "nonsense"] {
        let action = route(&event(id));
        for flag in [false, true] {
            assert_eq!(next_fullscreen(&action, flag), flag, "{} must not touch fullscreen", id);
        }
    }
}

#[test]
fn new_chat_scenario_on_the_quitless_platform() {
    // The platform where quit is supplied natively: File is exactly
    // [New-Chat, separator, Close-Window], and dispatching "new_chat"
    // forwards one notification and leaves the window state alone.
    let menu = build_menu(Platform::MacOs);
    let file = &menu.submenus[0];
    let shape: Vec<String> = file
        .entries
        .iter()
        .map(|e| match e {
            MenuEntry::Item(item) => item.identifier.clone(),
            MenuEntry::Predefined(p) => format!("{:?}", p),
        })
        .collect();
    assert_eq!(shape, vec!["new_chat", "Separator", "close"]);

    let action = route(&event("new_chat"));
    assert_eq!(action, Action::Forward { channel: "menu:new-chat".to_string() });
    for flag in [false, true] {
        assert_eq!(next_fullscreen(&action, flag), flag);
    }
}

#[test]
fn quit_scenario_stops_the_event_loop() {
    // Dispatching "quit" records exit status 0 and no later event is handled.
    let incoming = ["quit", "new_chat", "close"];
    let mut handled: Vec<Action> = Vec::new();
    let mut exit_status: Option<i32> = None;
    for id in incoming {
        let action = route(&event(id));
        let terminal = is_terminal(&action);
        if let Action::Quit { status } = &action {
            exit_status = Some(*status);
        }
        handled.push(action);
        if terminal {
            break;
        }
    }
    assert_eq!(exit_status, Some(0));
    assert_eq!(handled.len(), 1);
    assert_eq!(handled[0], Action::Quit { status: 0 });
}
