use termlaunch::config::{
    app_dirs, config_dir_path, config_file_path, Clipboard, Config, Hotkey, PrimaryTerminal, Shortcut, Ui,
    CONFIG_FILE_NAME, CONFIG_SUBDIR,
};

#[test]
fn shortcut_defaults() {
    let s = Shortcut::default();
    assert_eq!(s.apps, "ctrl+a");
    assert_eq!(s.files, "ctrl+f");
    assert_eq!(s.shell, "ctrl+c");
    assert_eq!(s.clipboard, "ctrl+p");
    assert_eq!(s.select, "ctrl+k");
}

#[test]
fn ui_hotkey_terminal_clipboard_defaults() {
    let u = Ui::default();
    assert_eq!(u.launcher_width, 80);
    assert_eq!(u.max_suggestions_to_display, 10);
    assert_eq!(u.default_mode, "app");
    let h = Hotkey::default();
    assert_eq!(h.key, "Space");
    assert_eq!(h.modifiers, vec!["Meta".to_string()]);
    let t = PrimaryTerminal::default();
    assert_eq!(t.terminal, "Ghostty");
    assert_eq!((t.default_width, t.default_height, t.default_columns, t.default_rows), (300, 200, 100, 30));
    let c = Clipboard::default();
    assert!(c.enabled);
    assert_eq!(c.history_size, 100);
}

#[test]
fn config_default_is_section_defaults() {
    let c = Config::default();
    assert_eq!(c.shortcut.apps, "ctrl+a");
    assert_eq!(c.ui.default_mode, "app");
    assert_eq!(c.hotkey.key, "Space");
    assert_eq!(c.primary_terminal.terminal, "Ghostty");
    assert_eq!(c.clipboard.history_size, 100);
}

#[test]
fn loaded_settings_win_over_defaults() {
    let mut c = Config::default();
    c.ui.launcher_width = 60;
    c.primary_terminal.terminal = "Terminal".to_string();
    let r = Config::from_loaded(Some(c));
    assert_eq!(r.ui.launcher_width, 60);
    assert_eq!(r.primary_terminal.terminal, "Terminal");
    let d = Config::from_loaded(None);
    assert_eq!(d.ui.launcher_width, 80);
    assert_eq!(d.primary_terminal.terminal, "Ghostty");
}

#[test]
fn settings_file_location() {
    assert_eq!(CONFIG_SUBDIR, ".config/TermLaunch");
    assert_eq!(CONFIG_FILE_NAME, "init.toml");
    assert_eq!(config_dir_path("/Users/me"), "/Users/me/.config/TermLaunch");
    assert_eq!(config_file_path("/Users/me"), "/Users/me/.config/TermLaunch/init.toml");
    assert_eq!(config_file_path("/Users/me/"), "/Users/me/.config/TermLaunch/init.toml");
}

#[test]
fn application_directories() {
    let fixed = vec![
        "/Applications".to_string(),
        "/System/Applications".to_string(),
        "/System/Applications/Utilities".to_string(),
        "/System/Library/CoreServices/Applications".to_string(),
    ];
    assert_eq!(app_dirs(None), fixed);
    let mut with_home = fixed.clone();
    with_home.push("/Users/me/Applications".to_string());
    assert_eq!(app_dirs(Some("/Users/me")), with_home);
}
