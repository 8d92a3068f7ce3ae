use microtaskrr::command::ClickButton;
use microtaskrr::command::ClickButtonState;
use microtaskrr::command::Command;
use microtaskrr::command::command_for_menu_id;
use microtaskrr::command::command_for_relaunch_token;
use microtaskrr::command::command_for_tray_click;
use microtaskrr::command::commands_for_relaunch_args;
use microtaskrr::command::MINUTE_MILLIS;

#[test]
fn menu_plain_entries() {
    assert_eq!(command_for_menu_id("show"), Some(Command::Show));
    assert_eq!(command_for_menu_id("hide"), Some(Command::Hide));
    assert_eq!(command_for_menu_id("wake"), Some(Command::Wake));
    assert_eq!(command_for_menu_id("quit"), Some(Command::Quit));
}

#[test]
fn menu_snooze_entries_carry_their_durations() {
    assert_eq!(
        command_for_menu_id("sleep_30m"),
        Some(Command::SnoozeFor(30 * MINUTE_MILLIS))
    );
    assert_eq!(
        command_for_menu_id("sleep_1h"),
        Some(Command::SnoozeFor(60 * MINUTE_MILLIS))
    );
    assert_eq!(
        command_for_menu_id("sleep_2h"),
        Some(Command::SnoozeFor(120 * MINUTE_MILLIS))
    );
    assert_eq!(
        command_for_menu_id("sleep_4h"),
        Some(Command::SnoozeFor(240 * MINUTE_MILLIS))
    );
    assert_eq!(
        command_for_menu_id("sleep_8h"),
        Some(Command::SnoozeFor(480 * MINUTE_MILLIS))
    );
}

#[test]
fn menu_unknown_entries_are_dropped() {
    assert_eq!(command_for_menu_id(""), None);
    assert_eq!(command_for_menu_id("sleep_"), None);
    assert_eq!(command_for_menu_id("sleep_30"), None);
    assert_eq!(command_for_menu_id("SHOW"), None);
    assert_eq!(command_for_menu_id("restart"), None);
}

#[test]
fn relaunch_tokens() {
    assert_eq!(command_for_relaunch_token("show"), Some(Command::Show));
    assert_eq!(command_for_relaunch_token("hide"), Some(Command::Hide));
    assert_eq!(command_for_relaunch_token("notify"), Some(Command::Notify));
    assert_eq!(command_for_relaunch_token("wake"), None);
    assert_eq!(command_for_relaunch_token(""), None);
}

#[test]
fn relaunch_show_notify_yields_two_commands_in_order() {
    let args = vec!["show".to_string(), "notify".to_string()];
    assert_eq!(
        commands_for_relaunch_args(&args),
        vec![Command::Show, Command::Notify]
    );
}

#[test]
fn relaunch_unrecognized_tokens_are_ignored_in_place() {
    let args = vec![
        "open".to_string(),
        "show".to_string(),
        "--flag".to_string(),
        "hide".to_string(),
        "notify".to_string(),
    ];
    assert_eq!(
        commands_for_relaunch_args(&args),
        vec![Command::Show, Command::Hide, Command::Notify]
    );
}

#[test]
fn relaunch_empty_argument_list_yields_nothing() {
    let args: Vec<String> = Vec::new();
    assert_eq!(commands_for_relaunch_args(&args), Vec::new());
}

#[test]
fn tray_left_release_toggles_visibility() {
    assert_eq!(
        command_for_tray_click(ClickButton::Left, ClickButtonState::Up),
        Some(Command::ToggleVisibility)
    );
}

#[test]
fn tray_other_clicks_are_ignored() {
    assert_eq!(
        command_for_tray_click(ClickButton::Left, ClickButtonState::Down),
        None
    );
    assert_eq!(
        command_for_tray_click(ClickButton::Right, ClickButtonState::Up),
        None
    );
    assert_eq!(
        command_for_tray_click(ClickButton::Right, ClickButtonState::Down),
        None
    );
    assert_eq!(
        command_for_tray_click(ClickButton::Middle, ClickButtonState::Up),
        None
    );
    assert_eq!(
        command_for_tray_click(ClickButton::Middle, ClickButtonState::Down),
        None
    );
}
