use tray_shell::greeting::greet;
use tray_shell::tray::{
    action_for, menu_ids_unique, tray_menu_items, Effect, MenuItemSpec, MouseButton,
    MouseButtonState, Phase, TrayAction, TrayController, TrayEvent, TrayInitError,
};
use tray_shell::window::{RestoreSteps, WindowState};

fn running_controller() -> TrayController {
    let mut c = TrayController::new();
    assert_eq!(c.begin_init(tray_menu_items()), Ok(()));
    assert_eq!(c.finish_init(Ok(())), Ok(()));
    assert_eq!(c.phase(), Phase::Running);
    c
}

fn state(visible: bool, minimized: bool, focused: bool) -> WindowState {
    WindowState { visible, minimized, focused }
}

fn menu(id: &str) -> TrayEvent {
    TrayEvent::MenuItemActivated { id: id.to_string() }
}

fn click(button: MouseButton, button_state: MouseButtonState) -> TrayEvent {
    TrayEvent::IconClicked { button, button_state }
}

#[test]
fn show_restores_minimized_main_without_popup() {
    let mut c = running_controller();
    let mut windows = vec![Some(state(false, true, false)), None];
    let effect = c.handle_event(&mut windows, &menu("show"));
    assert_eq!(windows, vec![Some(state(true, false, true)), None]);
    assert_eq!(
        effect,
        Effect::Restore(vec![
            Some(RestoreSteps { unminimize: true, show: true, focus: true }),
            None
        ])
    );
    assert_eq!(c.phase(), Phase::Running);
}

#[test]
fn right_click_changes_nothing() {
    let mut c = running_controller();
    let before = vec![Some(state(false, true, false)), Some(state(false, false, false))];
    let mut windows = before.clone();
    let effect = c.handle_event(&mut windows, &click(MouseButton::Right, MouseButtonState::Up));
    assert_eq!(effect, Effect::Nothing);
    assert_eq!(windows, before);
    assert_eq!(c.phase(), Phase::Running);
}

#[test]
fn left_click_on_restored_windows_changes_nothing_visible() {
    let mut c = running_controller();
    let before = vec![Some(state(true, false, true)), Some(state(true, false, false))];
    let mut windows = before.clone();
    let effect = c.handle_event(&mut windows, &click(MouseButton::Left, MouseButtonState::Up));
    assert_eq!(windows, before);
    assert_eq!(
        effect,
        Effect::Restore(vec![
            Some(RestoreSteps { unminimize: false, show: true, focus: true }),
            Some(RestoreSteps { unminimize: false, show: true, focus: false }),
        ])
    );
}

#[test]
fn popup_is_shown_but_not_focused() {
    let mut c = running_controller();
    let mut windows = vec![Some(state(false, false, false)), Some(state(false, true, false))];
    c.handle_event(&mut windows, &click(MouseButton::Left, MouseButtonState::Up));
    assert_eq!(windows, vec![Some(state(true, false, true)), Some(state(true, false, false))]);
}

#[test]
fn repeated_restores_keep_the_restored_state() {
    let mut c = running_controller();
    let mut windows = vec![Some(state(false, true, false)), Some(state(false, true, false))];
    c.handle_event(&mut windows, &menu("show"));
    let once = windows.clone();
    for _ in 0..3 {
        c.handle_event(&mut windows, &menu("show"));
        assert_eq!(windows, once);
    }
    assert_eq!(once, vec![Some(state(true, false, true)), Some(state(true, false, false))]);
}

#[test]
fn missing_main_leaves_popup_unfocused() {
    let mut c = running_controller();
    let mut windows = vec![None, Some(state(false, true, false))];
    c.handle_event(&mut windows, &menu("show"));
    assert_eq!(windows, vec![None, Some(state(true, false, false))]);
}

#[test]
fn quit_exits_with_success_whatever_the_windows() {
    for before in [
        vec![None, None],
        vec![Some(state(false, true, false)), None],
        vec![Some(state(true, false, true)), Some(state(true, false, false))],
    ] {
        let mut c = running_controller();
        let mut windows = before.clone();
        let effect = c.handle_event(&mut windows, &menu("quit"));
        assert_eq!(effect, Effect::Exit(0));
        assert_eq!(c.phase(), Phase::Terminated);
        assert_eq!(windows, before);
    }
}

#[test]
fn no_event_is_handled_after_quit() {
    let mut c = running_controller();
    let mut windows = vec![Some(state(false, true, false)), None];
    c.handle_event(&mut windows, &menu("quit"));
    let effect = c.handle_event(&mut windows, &menu("show"));
    assert_eq!(effect, Effect::Nothing);
    assert_eq!(windows, vec![Some(state(false, true, false)), None]);
    assert_eq!(c.phase(), Phase::Terminated);
}

#[test]
fn unknown_events_are_ignored() {
    let events = vec![
        menu("hide"),
        menu(""),
        menu("Show"),
        click(MouseButton::Left, MouseButtonState::Down),
        click(MouseButton::Middle, MouseButtonState::Up),
        click(MouseButton::Right, MouseButtonState::Down),
        TrayEvent::OtherIconEvent,
    ];
    for event in events {
        let mut c = running_controller();
        let before = vec![Some(state(false, true, false)), Some(state(false, true, true))];
        let mut windows = before.clone();
        assert_eq!(action_for(&event), TrayAction::Ignore);
        assert_eq!(c.handle_event(&mut windows, &event), Effect::Nothing);
        assert_eq!(windows, before);
        assert_eq!(c.phase(), Phase::Running);
    }
}

#[test]
fn actions_of_known_events() {
    assert_eq!(action_for(&menu("show")), TrayAction::RestoreAllWindows);
    assert_eq!(action_for(&menu("quit")), TrayAction::Quit);
    assert_eq!(
        action_for(&click(MouseButton::Left, MouseButtonState::Up)),
        TrayAction::RestoreAllWindows
    );
}

#[test]
fn events_before_running_are_ignored() {
    let mut c = TrayController::new();
    let mut windows = vec![Some(state(false, true, false)), None];
    assert_eq!(c.handle_event(&mut windows, &menu("show")), Effect::Nothing);
    assert_eq!(c.begin_init(tray_menu_items()), Ok(()));
    assert_eq!(c.phase(), Phase::Initializing);
    assert_eq!(c.handle_event(&mut windows, &menu("quit")), Effect::Nothing);
    assert_eq!(windows, vec![Some(state(false, true, false)), None]);
    assert_eq!(c.phase(), Phase::Initializing);
}

#[test]
fn tray_menu_has_show_then_quit() {
    let items = tray_menu_items();
    assert_eq!(
        items,
        vec![
            MenuItemSpec { id: "show".to_string(), label: "显示".to_string(), enabled: true },
            MenuItemSpec { id: "quit".to_string(), label: "退出".to_string(), enabled: true },
        ]
    );
    assert!(menu_ids_unique(&items));
}

#[test]
fn duplicate_menu_ids_fail_setup() {
    let items = vec![
        MenuItemSpec { id: "show".to_string(), label: "a".to_string(), enabled: true },
        MenuItemSpec { id: "quit".to_string(), label: "b".to_string(), enabled: true },
        MenuItemSpec { id: "show".to_string(), label: "c".to_string(), enabled: false },
    ];
    assert!(!menu_ids_unique(&items));
    let mut c = TrayController::new();
    assert_eq!(c.begin_init(items), Err(TrayInitError::MenuBuild));
    assert_eq!(c.phase(), Phase::Uninitialized);
    assert!(c.menu_items().is_empty());
}

#[test]
fn menu_is_kept_in_display_order() {
    let mut c = TrayController::new();
    assert_eq!(c.begin_init(tray_menu_items()), Ok(()));
    assert_eq!(c.menu_items(), &tray_menu_items());
}

#[test]
fn failed_registration_never_runs() {
    for err in [TrayInitError::IconDecode, TrayInitError::MenuBuild, TrayInitError::Registration] {
        let mut c = TrayController::new();
        assert_eq!(c.begin_init(tray_menu_items()), Ok(()));
        assert_eq!(c.finish_init(Err(err)), Err(err));
        assert_eq!(c.phase(), Phase::Initializing);
        let mut windows = vec![Some(state(false, true, false)), None];
        assert_eq!(c.handle_event(&mut windows, &menu("show")), Effect::Nothing);
        assert_eq!(windows, vec![Some(state(false, true, false)), None]);
    }
}

#[test]
fn greet_formats_the_name() {
    assert_eq!(greet("Ada"), "Hello, Ada! You've been greeted from Rust!");
    assert_eq!(greet(""), "Hello, ! You've been greeted from Rust!");
}
