use doo::capture::{captured_task, captured_text, screenshot_file_name};
use doo::commands::{route_command_line, AppAction};
use doo::hotkey::{is_listed, plan_registration, shortcut_command, Registration, BINDING, KEYBINDING_PATH};
use doo::storage::Task;
use doo::text::{decimal, same_text};
use doo::tray::{action_for_msg, activate_msg, tray_id, tray_menu, MenuEntry, TrayMsg};
use doo::window::{relative_label, shows_empty_state};

fn args(list: &[&str]) -> Vec<String> {
    list.iter().map(|s| s.to_string()).collect()
}

// ---- capture ----

#[test]
fn capture_trims_the_text() {
    assert_eq!(captured_text("  buy milk \n"), Some("buy milk".to_string()));
    assert_eq!(captured_text("call mum"), Some("call mum".to_string()));
    assert_eq!(captured_text("\tfix  the  bike\t"), Some("fix  the  bike".to_string()));
}

#[test]
fn capture_of_blank_saves_nothing() {
    assert_eq!(captured_text(""), None);
    assert_eq!(captured_text("   "), None);
    assert_eq!(captured_text("\n\t \r"), None);
    assert_eq!(captured_text("\u{3000}\u{00a0}\u{2028}"), None);
}

#[test]
fn capture_trims_unicode_white_space() {
    assert_eq!(captured_text("\u{3000}read\u{2003}"), Some("read".to_string()));
}

#[test]
fn capture_is_idempotent_on_examples() {
    for raw in ["  a b  ", "x", "\u{00a0}y\u{00a0}"] {
        let once = captured_text(raw).unwrap();
        assert_eq!(captured_text(&once), Some(once.clone()));
    }
}

#[test]
fn capture_without_screenshot_needs_text() {
    assert_eq!(captured_task("  milk ", None), Some(("milk".to_string(), None)));
    assert_eq!(captured_task("  ", None), None);
}

#[test]
fn capture_with_screenshot_is_saved_even_without_a_note() {
    assert_eq!(
        captured_task("", Some("/i/screenshot-1.png")),
        Some((String::new(), Some("/i/screenshot-1.png".to_string())))
    );
    assert_eq!(
        captured_task("  this bug ", Some("/i/s.png")),
        Some(("this bug".to_string(), Some("/i/s.png".to_string())))
    );
}

#[test]
fn screenshot_names() {
    assert_eq!(screenshot_file_name("20240830-145749-123456"), "screenshot-20240830-145749-123456.png");
}

// ---- decimal and text ----

#[test]
fn decimal_writes_numbers() {
    assert_eq!(decimal(0), "0");
    assert_eq!(decimal(7), "7");
    assert_eq!(decimal(10), "10");
    assert_eq!(decimal(59), "59");
    assert_eq!(decimal(1234567890), "1234567890");
    assert_eq!(decimal(u64::MAX), u64::MAX.to_string());
}

#[test]
fn same_text_compares_characters() {
    assert!(same_text("doo capture", "doo capture"));
    assert!(!same_text("doo capture", "doo  capture"));
    assert!(same_text("", ""));
}

// ---- relative time ----

#[test]
fn relative_label_under_a_minute() {
    assert_eq!(relative_label("2024-01-01T00:00:00Z", Some(0), None), "just now");
    assert_eq!(relative_label("2024-01-01T00:00:00Z", Some(59), None), "just now");
    assert_eq!(relative_label("2024-01-01T00:00:00Z", Some(-30), None), "just now");
}

#[test]
fn relative_label_minutes_and_hours() {
    assert_eq!(relative_label("t", Some(60), None), "1m ago");
    assert_eq!(relative_label("t", Some(119), None), "1m ago");
    assert_eq!(relative_label("t", Some(3599), None), "59m ago");
    assert_eq!(relative_label("t", Some(3600), None), "1h ago");
    assert_eq!(relative_label("t", Some(7200), None), "2h ago");
    assert_eq!(relative_label("t", Some(86_399), None), "23h ago");
}

#[test]
fn relative_label_older_shows_local_date() {
    assert_eq!(
        relative_label("2024-01-01T00:00:00Z", Some(86_400), Some("Jan  1, 01:00".to_string())),
        "Jan  1, 01:00"
    );
    assert_eq!(
        relative_label("2024-01-01T00:00:00Z", Some(1_000_000), None),
        "2024-01-01T00:00:00Z"
    );
}

#[test]
fn relative_label_unreadable_time_shows_it_as_is() {
    assert_eq!(relative_label("not a time", None, None), "not a time");
    assert_eq!(relative_label("not a time", None, Some("ignored".to_string())), "not a time");
}

#[test]
fn empty_state_only_without_tasks() {
    assert!(shows_empty_state(&Vec::new()));
    let tasks = vec![Task {
        id: 1,
        text: "a".to_string(),
        created_at: "t".to_string(),
        image_path: None,
    }];
    assert!(!shows_empty_state(&tasks));
}

// ---- command line ----

#[test]
fn command_line_capture() {
    assert_eq!(route_command_line(&args(&["doo", "capture"])), AppAction::ShowCapture);
}

#[test]
fn command_line_background() {
    assert_eq!(route_command_line(&args(&["doo", "--background"])), AppAction::StayResident);
}

#[test]
fn command_line_default_opens_the_list() {
    assert_eq!(route_command_line(&args(&["doo"])), AppAction::ShowTasks);
    assert_eq!(route_command_line(&args(&[])), AppAction::ShowTasks);
    assert_eq!(route_command_line(&args(&["doo", "list"])), AppAction::ShowTasks);
    assert_eq!(route_command_line(&args(&["doo", "Capture"])), AppAction::ShowTasks);
    assert_eq!(route_command_line(&args(&["doo", "--help", "capture"])), AppAction::ShowTasks);
}

// ---- tray ----

#[test]
fn tray_left_click_captures() {
    assert_eq!(activate_msg(), TrayMsg::Capture);
    assert_eq!(action_for_msg(activate_msg()), AppAction::ShowCapture);
}

#[test]
fn tray_messages_map_to_actions() {
    assert_eq!(action_for_msg(TrayMsg::Show), AppAction::ShowTasks);
    assert_eq!(action_for_msg(TrayMsg::Quit), AppAction::Quit);
}

#[test]
fn tray_identity() {
    assert_eq!(tray_id(), "dev.rahul.doo");
}

#[test]
fn tray_menu_entries() {
    let menu = tray_menu();
    assert_eq!(menu.len(), 4);
    match &menu[0] {
        MenuEntry::Item { label, icon_name, msg } => {
            assert_eq!(label, "Capture task");
            assert_eq!(icon_name, "list-add-symbolic");
            assert_eq!(*msg, TrayMsg::Capture);
        }
        MenuEntry::Separator => panic!("expected an item"),
    }
    match &menu[1] {
        MenuEntry::Item { label, icon_name, msg } => {
            assert_eq!(label, "Show tasks");
            assert_eq!(icon_name, "view-list-symbolic");
            assert_eq!(*msg, TrayMsg::Show);
        }
        MenuEntry::Separator => panic!("expected an item"),
    }
    assert!(matches!(menu[2], MenuEntry::Separator));
    match &menu[3] {
        MenuEntry::Item { label, icon_name, msg } => {
            assert_eq!(label, "Quit");
            assert_eq!(icon_name, "");
            assert_eq!(*msg, TrayMsg::Quit);
        }
        MenuEntry::Separator => panic!("expected an item"),
    }
}

// ---- global shortcut ----

fn entry(path: &str, binding: &str) -> (String, String) {
    (path.to_string(), binding.to_string())
}

#[test]
fn shortcut_command_uses_the_binary() {
    assert_eq!(shortcut_command(Some("/usr/bin/doo")), "/usr/bin/doo capture");
    assert_eq!(shortcut_command(None), "doo capture");
}

#[test]
fn first_registration_lists_and_writes() {
    let shortcuts = vec![entry("/custom0/", "<Ctrl>1")];
    match plan_registration(&shortcuts, "", "/usr/bin/doo capture") {
        Registration::Apply { listing, write_entry } => {
            assert_eq!(listing, Some(vec!["/custom0/".to_string(), KEYBINDING_PATH.to_string()]));
            assert!(write_entry);
        }
        Registration::Conflict { .. } => panic!("unexpected conflict"),
    }
}

#[test]
fn registration_with_no_custom_shortcuts() {
    match plan_registration(&Vec::new(), "", "doo capture") {
        Registration::Apply { listing, write_entry } => {
            assert_eq!(listing, Some(vec![KEYBINDING_PATH.to_string()]));
            assert!(write_entry);
        }
        Registration::Conflict { .. } => panic!("unexpected conflict"),
    }
}

#[test]
fn registration_never_steals_the_binding() {
    let shortcuts = vec![
        entry("/custom0/", "<Ctrl>1"),
        entry("/custom1/", BINDING),
        entry("/custom2/", BINDING),
    ];
    match plan_registration(&shortcuts, "", "doo capture") {
        Registration::Conflict { index } => assert_eq!(index, 1),
        Registration::Apply { .. } => panic!("expected a conflict"),
    }
}

#[test]
fn registration_already_listed_and_current() {
    let shortcuts = vec![entry("/custom1/", BINDING), entry(KEYBINDING_PATH, BINDING)];
    match plan_registration(&shortcuts, "/usr/bin/doo capture", "/usr/bin/doo capture") {
        Registration::Apply { listing, write_entry } => {
            assert_eq!(listing, None);
            assert!(!write_entry);
        }
        Registration::Conflict { .. } => panic!("listed shortcut is ours"),
    }
}

#[test]
fn registration_self_heals_a_moved_binary() {
    let shortcuts = vec![entry(KEYBINDING_PATH, BINDING)];
    match plan_registration(&shortcuts, "/home/me/doo/target/debug/doo capture", "/usr/bin/doo capture") {
        Registration::Apply { listing, write_entry } => {
            assert_eq!(listing, None);
            assert!(write_entry);
        }
        Registration::Conflict { .. } => panic!("unexpected conflict"),
    }
}

#[test]
fn registration_twice_changes_nothing() {
    let mut shortcuts = vec![entry("/custom0/", "<Alt>x")];
    let command = "/usr/bin/doo capture";
    let mut current = String::new();
    match plan_registration(&shortcuts, &current, command) {
        Registration::Apply { listing, write_entry } => {
            let listing = listing.unwrap();
            assert_eq!(listing.last().map(|s| s.as_str()), Some(KEYBINDING_PATH));
            shortcuts.push(entry(KEYBINDING_PATH, BINDING));
            assert!(write_entry);
            current = command.to_string();
        }
        Registration::Conflict { .. } => panic!("unexpected conflict"),
    }
    match plan_registration(&shortcuts, &current, command) {
        Registration::Apply { listing, write_entry } => {
            assert_eq!(listing, None);
            assert!(!write_entry);
        }
        Registration::Conflict { .. } => panic!("unexpected conflict"),
    }
}

#[test]
fn listed_checks_our_path() {
    assert!(!is_listed(&Vec::new()));
    assert!(!is_listed(&vec!["/custom0/".to_string()]));
    assert!(is_listed(&vec!["/custom0/".to_string(), KEYBINDING_PATH.to_string()]));
}

#[test]
fn bindings_are_ignored_once_listed() {
    let with = vec![entry("/custom0/", BINDING), entry(KEYBINDING_PATH, BINDING)];
    let without = vec![entry("/custom0/", ""), entry(KEYBINDING_PATH, "")];
    for shortcuts in [with, without] {
        match plan_registration(&shortcuts, "doo capture", "doo capture") {
            Registration::Apply { listing, write_entry } => {
                assert_eq!(listing, None);
                assert!(!write_entry);
            }
            Registration::Conflict { .. } => panic!("listed shortcut is ours"),
        }
    }
}
