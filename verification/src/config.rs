//! The launcher's settings, their defaults, and where they and the applications are looked for.

use vstd::prelude::*;
use crate::text::{join_path, path_join};

verus! {

/// The directory, under the home directory, that holds the settings file.
pub const CONFIG_SUBDIR: &'static str = ".config/TermLaunch";

/// The name of the settings file.
pub const CONFIG_FILE_NAME: &'static str = "init.toml";

/// All settings.
#[derive(Debug)]
pub struct Config {
    pub hotkey: Hotkey,
    pub primary_terminal: PrimaryTerminal,
    pub clipboard: Clipboard,
    pub ui: Ui,
    pub shortcut: Shortcut,
}

/// The key bindings that switch the launcher's mode.
#[derive(Debug)]
pub struct Shortcut {
    pub apps: String,
    pub files: String,
    pub shell: String,
    pub clipboard: String,
    pub select: String,
}

/// The launcher's size and starting mode.
#[derive(Debug)]
pub struct Ui {
    pub launcher_width: u16,
    pub max_suggestions_to_display: u16,
    pub default_mode: String,
}

/// The global hotkey that opens the launcher.
#[derive(Debug)]
pub struct Hotkey {
    pub key: String,
    pub modifiers: Vec<String>,
}

/// The terminal that the launcher opens in, and its window size.
#[derive(Debug)]
pub struct PrimaryTerminal {
    pub terminal: String,
    pub default_width: i32,
    pub default_height: i32,
    pub default_columns: i32,
    pub default_rows: i32,
}

/// Clipboard history settings.
#[derive(Debug)]
pub struct Clipboard {
    pub enabled: bool,
    pub history_size: u32,
}

impl Shortcut {
    /// The default bindings: `ctrl+a`, `ctrl+f`, `ctrl+c`, `ctrl+p`, `ctrl+k`.
    pub open spec fn is_default(&self) -> bool {
        &&& self.apps@ == "ctrl+a"@
        &&& self.files@ == "ctrl+f"@
        &&& self.shell@ == "ctrl+c"@
        &&& self.clipboard@ == "ctrl+p"@
        &&& self.select@ == "ctrl+k"@
    }
}

impl Ui {
    /// The default size: 80 wide, ten suggestions, starting in `app` mode.
    pub open spec fn is_default(&self) -> bool {
        &&& self.launcher_width == 80
        &&& self.max_suggestions_to_display == 10
        &&& self.default_mode@ == "app"@
    }
}

impl Hotkey {
    /// The default hotkey: `Meta` + `Space`.
    pub open spec fn is_default(&self) -> bool {
        &&& self.key@ == "Space"@
        &&& self.modifiers@.len() == 1
        &&& self.modifiers@[0]@ == "Meta"@
    }
}

impl PrimaryTerminal {
    /// The default terminal: Ghostty, 300 by 200, 100 columns by 30 rows.
    pub open spec fn is_default(&self) -> bool {
        &&& self.terminal@ == "Ghostty"@
        &&& self.default_width == 300
        &&& self.default_height == 200
        &&& self.default_columns == 100
        &&& self.default_rows == 30
    }
}

impl Clipboard {
    /// The default: enabled, a hundred entries.
    pub open spec fn is_default(&self) -> bool {
        &&& self.enabled
        &&& self.history_size == 100
    }
}

impl Config {
    /// Every section holds its defaults.
    pub open spec fn is_default(&self) -> bool {
        &&& self.hotkey.is_default()
        &&& self.primary_terminal.is_default()
        &&& self.clipboard.is_default()
        &&& self.ui.is_default()
        &&& self.shortcut.is_default()
    }

    /// The settings in force: those read from the settings file when it could be read and
    /// parsed, else the defaults.
    pub fn from_loaded(loaded: Option<Config>) -> (r: Config)
        ensures
            loaded is Some ==> r == loaded->0,
            loaded is None ==> r.is_default(),
    {
        match loaded {
            Some(c) => c,
            None => Config::default(),
        }
    }
}

impl Default for Shortcut {
    fn default() -> (r: Shortcut)
        ensures
            r.is_default(),
    {
        Shortcut {
            apps: String::from_str("ctrl+a"),
            files: String::from_str("ctrl+f"),
            shell: String::from_str("ctrl+c"),
            clipboard: String::from_str("ctrl+p"),
            select: String::from_str("ctrl+k"),
        }
    }
}

impl Default for Ui {
    fn default() -> (r: Ui)
        ensures
            r.is_default(),
    {
        Ui {
            launcher_width: 80,
            max_suggestions_to_display: 10,
            default_mode: String::from_str("app"),
        }
    }
}

impl Default for Hotkey {
    fn default() -> (r: Hotkey)
        ensures
            r.is_default(),
    {
        let mut modifiers: Vec<String> = Vec::new();
        modifiers.push(String::from_str("Meta"));
        Hotkey { key: String::from_str("Space"), modifiers }
    }
}

impl Default for PrimaryTerminal {
    fn default() -> (r: PrimaryTerminal)
        ensures
            r.is_default(),
    {
        PrimaryTerminal {
            terminal: String::from_str("Ghostty"),
            default_width: 300,
            default_height: 200,
            default_columns: 100,
            default_rows: 30,
        }
    }
}

impl Default for Clipboard {
    fn default() -> (r: Clipboard)
        ensures
            r.is_default(),
    {
        Clipboard { enabled: true, history_size: 100 }
    }
}

impl Default for Config {
    fn default() -> (r: Config)
        ensures
            r.is_default(),
    {
        Config {
            hotkey: Hotkey::default(),
            primary_terminal: PrimaryTerminal::default(),
            clipboard: Clipboard::default(),
            ui: Ui::default(),
            shortcut: Shortcut::default(),
        }
    }
}

/// The directories searched for applications, in order: the four system ones, then
/// `Applications` under the home directory when it is known.
pub open spec fn app_dirs_spec(home: Option<Seq<char>>) -> Seq<Seq<char>> {
    let fixed = seq![
        "/Applications"@,
        "/System/Applications"@,
        "/System/Applications/Utilities"@,
        "/System/Library/CoreServices/Applications"@,
    ];
    match home {
        Some(h) => fixed.push(join_path(h, "Applications"@)),
        None => fixed,
    }
}

/// The directories searched for applications, given the home directory if it is known.
pub fn app_dirs(home: Option<&str>) -> (r: Vec<String>)
    ensures
        r@.map_values(|s: String| s@) == app_dirs_spec(
            match home {
                Some(h) => Some(h@),
                None => None,
            },
        ),
{
    let mut dirs: Vec<String> = Vec::new();
    dirs.push(String::from_str("/Applications"));
    dirs.push(String::from_str("/System/Applications"));
    dirs.push(String::from_str("/System/Applications/Utilities"));
    dirs.push(String::from_str("/System/Library/CoreServices/Applications"));
    if let Some(h) = home {
        proof {
            reveal_strlit("Applications");
        }
        dirs.push(path_join(h, "Applications"));
    }
    let ghost h = match home {
        Some(h) => Some(h@),
        None => None,
    };
    assert(dirs@.map_values(|s: String| s@) =~= app_dirs_spec(h));
    dirs
}

/// The settings directory under the home directory `home`.
pub fn config_dir_path(home: &str) -> (r: String)
    ensures
        r@ == join_path(home@, CONFIG_SUBDIR@),
{
    proof {
        reveal_strlit(".config/TermLaunch");
    }
    path_join(home, CONFIG_SUBDIR)
}

/// The settings file under the home directory `home`.
pub fn config_file_path(home: &str) -> (r: String)
    ensures
        r@ == join_path(join_path(home@, CONFIG_SUBDIR@), CONFIG_FILE_NAME@),
{
    let dir = config_dir_path(home);
    proof {
        reveal_strlit("init.toml");
    }
    path_join(dir.as_str(), CONFIG_FILE_NAME)
}

} // verus!
