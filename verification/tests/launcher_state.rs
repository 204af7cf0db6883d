use termlaunch::app::{
    calc_suggestion, installed_applications, mode_from_name, App, AppMode, Application, Rgb, RunAction, Suggestion,
};
use termlaunch::config::Shortcut;
use termlaunch::keys::{KeyCode, KeyEvent, KeyEventKind, KeyModifiers};

fn app_named(name: &str) -> Application {
    Application {
        name: name.to_string(),
        icon: "\u{f08c6}".to_string(),
        path: format!("/Applications/{}.app", name),
    }
}

fn installed() -> Vec<Application> {
    vec![app_named("Firefox"), app_named("Visual Studio Code"), app_named("Finder")]
}

fn press(code: KeyCode) -> KeyEvent {
    KeyEvent { code, modifiers: KeyModifiers::none(), kind: KeyEventKind::Press }
}

fn ctrl(c: char) -> KeyEvent {
    let mut e = press(KeyCode::Char(c));
    e.modifiers.control = true;
    e
}

fn type_text(app: &mut App, text: &str, apps: &Vec<Application>) {
    for c in text.chars() {
        app.on_key(KeyCode::Char(c), apps);
    }
}

#[test]
fn new_starts_in_configured_mode() {
    assert_eq!(App::new("file").current_mode, AppMode::FileSearch);
    assert_eq!(App::new("shell").current_mode, AppMode::ShellExecution);
    assert_eq!(App::new("clipboard").current_mode, AppMode::ClipboardHistory);
    assert_eq!(App::new("app").current_mode, AppMode::AppLauncher);
    assert_eq!(App::new("anything").current_mode, AppMode::AppLauncher);
    assert_eq!(mode_from_name("File"), AppMode::AppLauncher);
    let a = App::new("file");
    assert_eq!(a.input, "");
    assert!(a.suggestions.is_empty());
    assert_eq!(a.selected_index, 0);
}

#[test]
fn mode_colors() {
    let mut a = App::new("app");
    assert_eq!(a.get_mode_color(), Rgb { r: 0x95, g: 0x7f, b: 0xb8 });
    a.current_mode = AppMode::FileSearch;
    assert_eq!(a.get_mode_color(), Rgb { r: 0x76, g: 0x94, b: 0x6a });
    a.current_mode = AppMode::ShellExecution;
    assert_eq!(a.get_mode_color(), Rgb { r: 0xc3, g: 0x40, b: 0x43 });
    a.current_mode = AppMode::ClipboardHistory;
    assert_eq!(a.get_mode_color(), Rgb { r: 0xc0, g: 0xa3, b: 0x6e });
}

#[test]
fn typing_filters_applications_ignoring_case() {
    let apps = installed();
    let mut a = App::new("app");
    type_text(&mut a, "FI", &apps);
    assert_eq!(a.input, "FI");
    assert_eq!(
        a.suggestions,
        vec![Suggestion::App(app_named("Firefox")), Suggestion::App(app_named("Finder"))]
    );
    assert_eq!(a.selected_index, 0);
    type_text(&mut a, "r", &apps);
    assert_eq!(a.suggestions, vec![Suggestion::App(app_named("Firefox"))]);
    type_text(&mut a, " code", &apps);
    assert!(a.suggestions.is_empty());
}

#[test]
fn substring_anywhere_in_name() {
    let apps = installed();
    let mut a = App::new("app");
    type_text(&mut a, "studio", &apps);
    assert_eq!(a.suggestions, vec![Suggestion::App(app_named("Visual Studio Code"))]);
}

#[test]
fn backspace_restores_previous_input() {
    let apps = installed();
    let mut a = App::new("app");
    type_text(&mut a, "fir", &apps);
    a.on_key(KeyCode::Backspace, &apps);
    assert_eq!(a.input, "fi");
    assert_eq!(a.suggestions.len(), 2);
    a.on_key(KeyCode::Backspace, &apps);
    a.on_key(KeyCode::Backspace, &apps);
    assert_eq!(a.input, "");
    assert!(a.suggestions.is_empty());
    a.on_key(KeyCode::Backspace, &apps);
    assert_eq!(a.input, "");
}

#[test]
fn non_ascii_input_is_kept() {
    let apps = installed();
    let mut a = App::new("shell");
    type_text(&mut a, "\u{e9}cho", &apps);
    assert_eq!(a.suggestions, vec![Suggestion::Shell("Run: \u{e9}cho".to_string())]);
    a.on_key(KeyCode::Backspace, &apps);
    assert_eq!(a.input, "\u{e9}ch");
}

#[test]
fn up_and_down_stay_in_the_list() {
    let apps = installed();
    let mut a = App::new("app");
    type_text(&mut a, "f", &apps);
    assert_eq!(a.suggestions.len(), 2);
    a.on_key(KeyCode::Up, &apps);
    assert_eq!(a.selected_index, 0);
    a.on_key(KeyCode::Down, &apps);
    assert_eq!(a.selected_index, 1);
    a.on_key(KeyCode::Down, &apps);
    assert_eq!(a.selected_index, 1);
    a.on_key(KeyCode::Up, &apps);
    assert_eq!(a.selected_index, 0);
    a.on_key(KeyCode::Other, &apps);
    assert_eq!(a.selected_index, 0);
    assert_eq!(a.input, "f");
}

#[test]
fn down_on_empty_list_does_nothing() {
    let apps = Vec::new();
    let mut a = App::new("app");
    a.on_key(KeyCode::Down, &apps);
    assert_eq!(a.selected_index, 0);
}

#[test]
fn file_and_shell_modes_echo_input() {
    let apps = installed();
    let mut a = App::new("file");
    type_text(&mut a, "notes", &apps);
    assert_eq!(a.suggestions, vec![Suggestion::File("Search file: notes".to_string())]);
    let mut b = App::new("shell");
    type_text(&mut b, "ls", &apps);
    assert_eq!(b.suggestions, vec![Suggestion::Shell("Run: ls".to_string())]);
}

#[test]
fn clipboard_mode_always_has_one_entry() {
    let apps = installed();
    let mut a = App::new("clipboard");
    a.update_suggestions(&apps);
    assert_eq!(a.suggestions, vec![Suggestion::Clipboard("Last copied text...".to_string())]);
    type_text(&mut a, "1+1", &apps);
    assert_eq!(a.suggestions, vec![Suggestion::Clipboard("Last copied text...".to_string())]);
}

#[test]
fn calculator_fills_in_when_nothing_matches() {
    let apps = installed();
    let mut a = App::new("app");
    type_text(&mut a, "1+1", &apps);
    assert_eq!(a.suggestions, vec![Suggestion::Calc("2".to_string())]);
    let mut b = App::new("app");
    type_text(&mut b, "3*4.5", &apps);
    assert_eq!(b.suggestions, vec![Suggestion::Calc("13.5".to_string())]);
}

#[test]
fn calculator_skips_infinite_and_invalid() {
    let apps = installed();
    let mut a = App::new("app");
    type_text(&mut a, "1/0", &apps);
    assert!(a.suggestions.is_empty());
    let mut b = App::new("app");
    type_text(&mut b, "xyz(", &apps);
    assert!(b.suggestions.is_empty());
}

#[test]
fn calculator_not_asked_when_apps_match() {
    let apps = vec![app_named("2048")];
    let mut a = App::new("app");
    type_text(&mut a, "2", &apps);
    assert_eq!(a.suggestions, vec![Suggestion::App(app_named("2048"))]);
}

#[test]
fn calc_suggestion_by_bits() {
    assert_eq!(
        calc_suggestion(Some((2.0f64.to_bits(), "2".to_string()))),
        Some(Suggestion::Calc("2".to_string()))
    );
    assert_eq!(calc_suggestion(Some((f64::INFINITY.to_bits(), "inf".to_string()))), None);
    assert_eq!(calc_suggestion(Some((f64::NAN.to_bits(), "NaN".to_string()))), None);
    assert_eq!(calc_suggestion(None), None);
}

#[test]
fn change_mode_by_shortcut() {
    let apps = installed();
    let sc = Shortcut::default();
    let mut a = App::new("app");
    type_text(&mut a, "fire", &apps);
    assert!(a.change_mode(ctrl('f'), &sc, &apps));
    assert_eq!(a.current_mode, AppMode::FileSearch);
    assert_eq!(a.input, "");
    assert!(a.suggestions.is_empty());
    assert!(a.change_mode(ctrl('p'), &sc, &apps));
    assert_eq!(a.current_mode, AppMode::ClipboardHistory);
    assert_eq!(a.suggestions, vec![Suggestion::Clipboard("Last copied text...".to_string())]);
    assert!(a.change_mode(ctrl('C'), &sc, &apps));
    assert_eq!(a.current_mode, AppMode::ShellExecution);
    assert!(a.change_mode(ctrl('a'), &sc, &apps));
    assert_eq!(a.current_mode, AppMode::AppLauncher);
}

#[test]
fn non_shortcut_leaves_state() {
    let apps = installed();
    let sc = Shortcut::default();
    let mut a = App::new("app");
    type_text(&mut a, "fi", &apps);
    assert!(!a.change_mode(ctrl('k'), &sc, &apps));
    assert!(!a.change_mode(press(KeyCode::Char('f')), &sc, &apps));
    assert_eq!(a.input, "fi");
    assert_eq!(a.suggestions.len(), 2);
}

#[test]
fn event_loop_decisions() {
    let apps = installed();
    let sc = Shortcut::default();
    let mut a = App::new("app");
    assert_eq!(a.handle_event(press(KeyCode::Char('f')), &sc, &apps), RunAction::Continue);
    assert_eq!(a.input, "f");
    let mut release = press(KeyCode::Char('x'));
    release.kind = KeyEventKind::Release;
    assert_eq!(a.handle_event(release, &sc, &apps), RunAction::Continue);
    assert_eq!(a.input, "f");
    assert_eq!(a.handle_event(press(KeyCode::Down), &sc, &apps), RunAction::Continue);
    assert_eq!(a.selected_index, 1);
    assert_eq!(
        a.handle_event(press(KeyCode::Enter), &sc, &apps),
        RunAction::Launch("/Applications/Finder.app".to_string())
    );
    assert_eq!(a.handle_event(press(KeyCode::Esc), &sc, &apps), RunAction::Quit);
    assert_eq!(a.handle_event(ctrl('f'), &sc, &apps), RunAction::Continue);
    assert_eq!(a.current_mode, AppMode::FileSearch);
}

#[test]
fn enter_without_application_does_nothing() {
    let apps = installed();
    let sc = Shortcut::default();
    let mut a = App::new("file");
    assert_eq!(a.handle_event(press(KeyCode::Enter), &sc, &apps), RunAction::Continue);
    type_text(&mut a, "x", &apps);
    assert_eq!(a.handle_event(press(KeyCode::Enter), &sc, &apps), RunAction::Continue);
    assert_eq!(a.input, "x");
}

#[test]
fn applications_from_directory_entries() {
    let paths = vec![
        "/Applications/Safari.app".to_string(),
        "/Applications/readme.txt".to_string(),
        "/Applications/.app".to_string(),
        "/Applications/My.Tool.app".to_string(),
        "/Applications/Utilities".to_string(),
        "/Users/me/Applications/x.app".to_string(),
    ];
    let apps = installed_applications(&paths);
    assert_eq!(
        apps,
        vec![
            Application {
                name: "Safari".to_string(),
                icon: "\u{f08c6}".to_string(),
                path: "/Applications/Safari.app".to_string()
            },
            Application {
                name: "My.Tool".to_string(),
                icon: "\u{f08c6}".to_string(),
                path: "/Applications/My.Tool.app".to_string()
            },
            Application {
                name: "x".to_string(),
                icon: "\u{f08c6}".to_string(),
                path: "/Users/me/Applications/x.app".to_string()
            },
        ]
    );
}

#[test]
fn refresh_with_given_answer() {
    let apps = installed();
    let mut a = App::new("app");
    a.input = "zz".to_string();
    a.selected_index = 3;
    a.refresh_with(&apps, Some((7.0f64.to_bits(), "7".to_string())));
    assert_eq!(a.suggestions, vec![Suggestion::Calc("7".to_string())]);
    assert_eq!(a.selected_index, 0);
    a.refresh_with(&apps, Some((f64::INFINITY.to_bits(), "inf".to_string())));
    assert!(a.suggestions.is_empty());
    a.input = "fire".to_string();
    a.refresh_with(&apps, Some((7.0f64.to_bits(), "7".to_string())));
    assert_eq!(a.suggestions, vec![Suggestion::App(app_named("Firefox"))]);
    let mut b = App::new("file");
    b.refresh_with(&apps, Some((1.0f64.to_bits(), "1".to_string())));
    assert!(b.suggestions.is_empty());
}

#[test]
fn plain_q_quits() {
    let apps = installed();
    let sc = Shortcut::default();
    let mut a = App::new("app");
    type_text(&mut a, "fi", &apps);
    assert_eq!(a.handle_event(press(KeyCode::Char('q')), &sc, &apps), RunAction::Quit);
    assert_eq!(a.input, "fi");
    let mut shifted = press(KeyCode::Char('Q'));
    shifted.modifiers.shift = true;
    assert_eq!(a.handle_event(shifted, &sc, &apps), RunAction::Continue);
    assert_eq!(a.input, "fiQ");
}

#[test]
fn blank_input_asks_no_calculation() {
    let apps = vec![app_named("Firefox"), app_named("Finder")];
    let mut a = App::new("app");
    type_text(&mut a, " ", &apps);
    assert!(a.suggestions.is_empty());
    type_text(&mut a, "\t", &apps);
    assert!(a.suggestions.is_empty());
    type_text(&mut a, "2", &apps);
    assert_eq!(a.suggestions, vec![Suggestion::Calc("2".to_string())]);
    let mut b = App::new("app");
    b.input = "  ".to_string();
    b.refresh_with(&apps, Some((1.0f64.to_bits(), "1".to_string())));
    assert!(b.suggestions.is_empty());
}
