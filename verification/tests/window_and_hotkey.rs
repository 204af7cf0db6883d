use termlaunch::app::{App, Application, Suggestion};
use termlaunch::config::{Hotkey, PrimaryTerminal};
use termlaunch::fixed_hotkey;
use termlaunch::hotkey::{
    check_hotkey, map_main_key_str_to_key, map_modifier_str_to_key, open_in_configured_terminal, terminal_kind,
    DaemonKey, HotkeyAction, HotkeyListener, InputEvent, PressedKeys, TerminalKind,
};
use termlaunch::view::{centered_rect_constraints, launcher_view, suggestion_row};

#[test]
fn window_content() {
    let mut a = App::new("app");
    a.suggestions = vec![
        Suggestion::App(Application { name: "Firefox".into(), icon: "I".into(), path: "/p".into() }),
        Suggestion::File("f".into()),
        Suggestion::Calc("2".into()),
    ];
    a.selected_index = 1;
    a.input = "fi".into();
    let v = launcher_view(&a, 10);
    assert_eq!(v.title, " Apps ");
    assert_eq!(v.prompt, "\u{276f} ");
    assert_eq!(v.input, "fi");
    assert_eq!(v.height, 6);
    assert_eq!(v.rows.len(), 3);
    assert_eq!(v.rows[0].icon, "I ");
    assert_eq!(v.rows[0].text, "Firefox");
    assert!(!v.rows[0].selected);
    assert!(v.rows[1].selected);
    assert_eq!(v.rows[1].icon, "\u{f0214} ");
    assert_eq!(v.rows[2].icon, "\u{f1ec} ");
    let small = launcher_view(&a, 2);
    assert_eq!(small.height, 5);
}

#[test]
fn row_icons_per_kind() {
    assert_eq!(suggestion_row(&Suggestion::Shell("Run: ls".into()), false).icon, "\u{f489} ");
    assert_eq!(suggestion_row(&Suggestion::Clipboard("c".into()), true).icon, "\u{f162a} ");
    assert!(suggestion_row(&Suggestion::Clipboard("c".into()), true).selected);
}

#[test]
fn centering_numbers() {
    let c = centered_rect_constraints(80, 6, 50);
    assert_eq!((c.top_percent, c.min_height, c.bottom_max, c.side_percent, c.width_percent), (15, 6, 39, 10, 80));
    let d = centered_rect_constraints(100, 60, 50);
    assert_eq!((d.bottom_max, d.side_percent), (0, 0));
    let e = centered_rect_constraints(33, 3, 5);
    assert_eq!((e.bottom_max, e.side_percent), (2, 33));
}

#[test]
fn key_names() {
    assert_eq!(map_modifier_str_to_key("Meta"), Some(DaemonKey::MetaLeft));
    assert_eq!(map_modifier_str_to_key("Control"), Some(DaemonKey::ControlLeft));
    assert_eq!(map_modifier_str_to_key("Shift"), Some(DaemonKey::ShiftLeft));
    assert_eq!(map_modifier_str_to_key("Alt"), Some(DaemonKey::Alt));
    assert_eq!(map_modifier_str_to_key("meta"), None);
    assert_eq!(map_main_key_str_to_key("Space"), Some(DaemonKey::Space));
    assert_eq!(map_main_key_str_to_key("Return"), Some(DaemonKey::Return));
    assert_eq!(map_main_key_str_to_key("Escape"), Some(DaemonKey::Escape));
    assert_eq!(map_main_key_str_to_key("A"), None);
}

#[test]
fn pressed_set() {
    let mut p = PressedKeys::new();
    assert!(!p.contains(DaemonKey::Space));
    p.insert(DaemonKey::Space);
    p.insert(DaemonKey::Space);
    assert!(p.contains(DaemonKey::Space));
    p.remove(DaemonKey::Space);
    assert!(!p.contains(DaemonKey::Space));
}

#[test]
fn default_hotkey_either_command_key() {
    let hk = Hotkey::default();
    let mut p = PressedKeys::new();
    p.insert(DaemonKey::Space);
    assert!(!check_hotkey(&p, &hk));
    p.insert(DaemonKey::MetaRight);
    assert!(check_hotkey(&p, &hk));
    p.remove(DaemonKey::MetaRight);
    p.insert(DaemonKey::MetaLeft);
    assert!(check_hotkey(&p, &hk));
}

#[test]
fn unknown_names_never_fire() {
    let mut p = PressedKeys::new();
    p.insert(DaemonKey::Space);
    p.insert(DaemonKey::MetaLeft);
    let hk = Hotkey { key: "Space".into(), modifiers: vec!["Meta".into(), "Hyper".into()] };
    assert!(!check_hotkey(&p, &hk));
    let hk2 = Hotkey { key: "Tab".into(), modifiers: vec![] };
    assert!(!check_hotkey(&p, &hk2));
    let hk3 = Hotkey { key: "Space".into(), modifiers: vec![] };
    assert!(check_hotkey(&p, &hk3));
}

#[test]
fn alt_and_altgr_both_serve() {
    let hk = Hotkey { key: "Return".into(), modifiers: vec!["Alt".into(), "Shift".into()] };
    let mut p = PressedKeys::new();
    p.insert(DaemonKey::AltGr);
    p.insert(DaemonKey::ShiftRight);
    p.insert(DaemonKey::Return);
    assert!(check_hotkey(&p, &hk));
}

#[test]
fn listener_guards_against_second_launch() {
    let hk = Hotkey::default();
    let mut l = HotkeyListener::new();
    assert_eq!(l.handle_event(InputEvent::KeyPress(DaemonKey::MetaLeft), &hk), HotkeyAction::Nothing);
    assert_eq!(l.handle_event(InputEvent::KeyPress(DaemonKey::Space), &hk), HotkeyAction::Launch);
    assert!(l.tui_running);
    assert_eq!(l.handle_event(InputEvent::KeyPress(DaemonKey::Other), &hk), HotkeyAction::AlreadyRunning);
    l.launch_finished();
    assert!(!l.tui_running);
    assert_eq!(l.handle_event(InputEvent::KeyRelease(DaemonKey::Space), &hk), HotkeyAction::Nothing);
    assert_eq!(l.handle_event(InputEvent::Other, &hk), HotkeyAction::Nothing);
    assert_eq!(l.handle_event(InputEvent::KeyPress(DaemonKey::Space), &hk), HotkeyAction::Launch);
}

#[test]
fn terminal_selection() {
    assert_eq!(terminal_kind("Ghostty"), TerminalKind::Ghostty);
    assert_eq!(terminal_kind("Terminal"), TerminalKind::TerminalApp);
    assert_eq!(terminal_kind("iTerm"), TerminalKind::UnsupportedFallback);
}

#[test]
fn ghostty_command() {
    let t = PrimaryTerminal::default();
    let c = open_in_configured_terminal(&t, "/bin/TermLaunch-cli", (120, -4), (1, 2, 3, 4));
    assert_eq!(c.program, "open");
    assert_eq!(
        c.args,
        vec![
            "-a",
            "Ghostty",
            "-n",
            "--args",
            "--window-position-x=120",
            "--window-position-y=-4",
            "--window-width=100",
            "--window-height=30",
            "--title=TermLaunch",
            "-e",
            "sh",
            "-c",
            "\"/bin/TermLaunch-cli\"; exit",
        ]
    );
}

#[test]
fn terminal_app_command() {
    let mut t = PrimaryTerminal::default();
    t.terminal = "Kitty".into();
    let c = open_in_configured_terminal(&t, "/bin/cli", (0, 0), (10, 20, 910, 520));
    assert_eq!(c.program, "osascript");
    assert_eq!(c.args.len(), 2);
    assert_eq!(c.args[0], "-e");
    let script = &c.args[1];
    assert!(script.contains("set term_tab to do script quoted form of \"/bin/cli\""));
    assert!(script.contains("tell front window to set its bounds to { 10, 20, 910, 520 }"));
    assert!(script.starts_with("\n        tell application \"Terminal\"\n"));
    assert!(script.ends_with("        end tell\n        "));
}

#[test]
fn fixed_listener() {
    let mut p = PressedKeys::new();
    p.insert(DaemonKey::Space);
    assert!(!fixed_hotkey::check_hotkey(&p));
    p.insert(DaemonKey::MetaRight);
    assert!(fixed_hotkey::check_hotkey(&p));
    let c = fixed_hotkey::open_in_ghostty("/x/TermLaunch-cli");
    assert_eq!(c.program, "open");
    assert_eq!(c.args, vec!["-a", "ghostty", "-n", "--args", "-e", "/x/TermLaunch-cli"]);
}
