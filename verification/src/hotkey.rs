//! The global hotkey: which keys are held, when the configured combination is complete, the
//! guard against opening a second launcher, and the command that opens the launcher in the
//! configured terminal.

use vstd::prelude::*;
use crate::config::{Hotkey, PrimaryTerminal};
use crate::text::{i32_to_string, signed_decimal, str_eq};

verus! {

/// The keys that the hotkey can name; every other key is `Other`.
#[derive(Debug, Clone, Copy, PartialEq, Eq, Structural)]
pub enum DaemonKey {
    MetaLeft,
    MetaRight,
    ControlLeft,
    ControlRight,
    ShiftLeft,
    ShiftRight,
    Alt,
    AltGr,
    Space,
    Return,
    Escape,
    Other,
}

/// The set of keys held down.
#[derive(Debug)]
pub struct PressedKeys {
    keys: Vec<DaemonKey>,
}

/// A keyboard event seen by the hotkey listener.
#[derive(Debug, Clone, Copy, PartialEq, Eq, Structural)]
pub enum InputEvent {
    KeyPress(DaemonKey),
    KeyRelease(DaemonKey),
    Other,
}

/// What the listener asks for after an event.
#[derive(Debug, Clone, Copy, PartialEq, Eq, Structural)]
pub enum HotkeyAction {
    /// Open the launcher; call `launch_finished` once it has closed.
    Launch,
    /// The hotkey came while the launcher is open: ignore it.
    AlreadyRunning,
    Nothing,
}

/// The hotkey listener's state.
#[derive(Debug)]
pub struct HotkeyListener {
    pub pressed: PressedKeys,
    pub tui_running: bool,
}

/// A program and its arguments.
#[derive(Debug, Clone, PartialEq, Eq)]
pub struct TerminalCommand {
    pub program: String,
    pub args: Vec<String>,
}

/// The terminal that a configured name selects.
#[derive(Debug, Clone, Copy, PartialEq, Eq, Structural)]
pub enum TerminalKind {
    Ghostty,
    TerminalApp,
    /// An unsupported name: Terminal.app is used.
    UnsupportedFallback,
}

impl PressedKeys {
    /// The keys held.
    pub closed spec fn held(self) -> Set<DaemonKey> {
        Set::new(|k: DaemonKey| self.keys@.contains(k))
    }

    /// No key held.
    pub fn new() -> (r: PressedKeys)
        ensures
            r.held() == Set::<DaemonKey>::empty(),
    {
        let r = PressedKeys { keys: Vec::new() };
        assert(r.held() =~= Set::<DaemonKey>::empty());
        r
    }

    /// Whether `k` is held.
    pub fn contains(&self, k: DaemonKey) -> (r: bool)
        ensures
            r == self.held().contains(k),
    {
        let mut i: usize = 0;
        while i < self.keys.len()
            invariant
                i <= self.keys@.len(),
                forall|j: int| 0 <= j < i ==> self.keys@[j] != k,
            decreases self.keys.len() - i,
        {
            if self.keys[i] == k {
                return true;
            }
            i = i + 1;
        }
        false
    }

    /// Records that `k` is held.
    pub fn insert(&mut self, k: DaemonKey)
        ensures
            final(self).held() == old(self).held().insert(k),
    {
        if !self.contains(k) {
            let ghost before = self.keys@;
            self.keys.push(k);
            assert forall|x: DaemonKey| before.contains(x) implies #[trigger] self.keys@.contains(x) by {
                let j = choose|j: int| 0 <= j < before.len() && before[j] == x;
                assert(self.keys@[j] == x);
            }
            assert(self.keys@[self.keys@.len() - 1] == k);
            assert forall|x: DaemonKey| #[trigger] self.keys@.contains(x) implies before.contains(x) || x == k by {
                let j = choose|j: int| 0 <= j < self.keys@.len() && self.keys@[j] == x;
                if j < before.len() {
                    assert(before[j] == x);
                }
            }
        }
        assert(self.held() =~= old(self).held().insert(k));
    }

    /// Records that `k` is no longer held.
    pub fn remove(&mut self, k: DaemonKey)
        ensures
            final(self).held() == old(self).held().remove(k),
    {
        let mut kept: Vec<DaemonKey> = Vec::new();
        let mut i: usize = 0;
        while i < self.keys.len()
            invariant
                i <= self.keys@.len(),
                forall|x: DaemonKey|
                    #[trigger] kept@.contains(x) <==> (x != k && exists|j: int|
                        0 <= j < i && self.keys@[j] == x),
            decreases self.keys.len() - i,
        {
            let x = self.keys[i];
            let ghost before = kept@;
            if x != k {
                kept.push(x);
            }
            assert forall|y: DaemonKey| #[trigger] kept@.contains(y) <==> (y != k && exists|j: int|
                0 <= j < i + 1 && self.keys@[j] == y) by {
                if y != k && exists|j: int| 0 <= j < i + 1 && self.keys@[j] == y {
                    let j = choose|j: int| 0 <= j < i + 1 && self.keys@[j] == y;
                    if j < i {
                        assert(before.contains(y));
                        let t = choose|t: int| 0 <= t < before.len() && before[t] == y;
                        assert(kept@[t] == y);
                    } else {
                        assert(kept@[kept@.len() - 1] == y);
                    }
                }
                if kept@.contains(y) {
                    let t = choose|t: int| 0 <= t < kept@.len() && kept@[t] == y;
                    if t < before.len() {
                        assert(before[t] == y);
                        assert(before.contains(y));
                    }
                }
            }
            i = i + 1;
        }
        self.keys = kept;
        assert(self.held() =~= old(self).held().remove(k));
    }
}

/// The key that a configured modifier name stands for.
pub open spec fn modifier_key(name: Seq<char>) -> Option<DaemonKey> {
    if name == "Meta"@ {
        Some(DaemonKey::MetaLeft)
    } else if name == "Control"@ {
        Some(DaemonKey::ControlLeft)
    } else if name == "Shift"@ {
        Some(DaemonKey::ShiftLeft)
    } else if name == "Alt"@ {
        Some(DaemonKey::Alt)
    } else {
        None
    }
}

/// The key that a configured main key name stands for.
pub open spec fn main_key(name: Seq<char>) -> Option<DaemonKey> {
    if name == "Space"@ {
        Some(DaemonKey::Space)
    } else if name == "Return"@ {
        Some(DaemonKey::Return)
    } else if name == "Escape"@ {
        Some(DaemonKey::Escape)
    } else {
        None
    }
}

/// The left and right keys of a modifier.
pub open spec fn key_variants(k: DaemonKey) -> (DaemonKey, DaemonKey) {
    match k {
        DaemonKey::MetaLeft => (DaemonKey::MetaLeft, DaemonKey::MetaRight),
        DaemonKey::ControlLeft => (DaemonKey::ControlLeft, DaemonKey::ControlRight),
        DaemonKey::ShiftLeft => (DaemonKey::ShiftLeft, DaemonKey::ShiftRight),
        DaemonKey::Alt => (DaemonKey::Alt, DaemonKey::AltGr),
        _ => (k, k),
    }
}

/// A configured modifier is known and its left or right key is held.
pub open spec fn modifier_held(name: Seq<char>, held: Set<DaemonKey>) -> bool {
    match modifier_key(name) {
        Some(k) => held.contains(key_variants(k).0) || held.contains(key_variants(k).1),
        None => false,
    }
}

/// The hotkey is complete: every configured modifier is held, and the configured main key is
/// known and held.
pub open spec fn hotkey_held(key: Seq<char>, modifiers: Seq<Seq<char>>, held: Set<DaemonKey>) -> bool {
    &&& forall|i: int| 0 <= i < modifiers.len() ==> modifier_held(#[trigger] modifiers[i], held)
    &&& match main_key(key) {
        Some(k) => held.contains(k),
        None => false,
    }
}

/// The configured modifier names.
pub open spec fn modifier_names(hotkey: &Hotkey) -> Seq<Seq<char>> {
    hotkey.modifiers@.map_values(|s: String| s@)
}

/// The key that a configured modifier name stands for: `Meta`, `Control`, `Shift`, `Alt`.
pub fn map_modifier_str_to_key(name: &str) -> (r: Option<DaemonKey>)
    ensures
        r == modifier_key(name@),
{
    if str_eq(name, "Meta") {
        Some(DaemonKey::MetaLeft)
    } else if str_eq(name, "Control") {
        Some(DaemonKey::ControlLeft)
    } else if str_eq(name, "Shift") {
        Some(DaemonKey::ShiftLeft)
    } else if str_eq(name, "Alt") {
        Some(DaemonKey::Alt)
    } else {
        None
    }
}

/// The key that a configured main key name stands for: `Space`, `Return`, `Escape`.
pub fn map_main_key_str_to_key(name: &str) -> (r: Option<DaemonKey>)
    ensures
        r == main_key(name@),
{
    if str_eq(name, "Space") {
        Some(DaemonKey::Space)
    } else if str_eq(name, "Return") {
        Some(DaemonKey::Return)
    } else if str_eq(name, "Escape") {
        Some(DaemonKey::Escape)
    } else {
        None
    }
}

fn variants_of(k: DaemonKey) -> (r: (DaemonKey, DaemonKey))
    ensures
        r == key_variants(k),
{
    match k {
        DaemonKey::MetaLeft => (DaemonKey::MetaLeft, DaemonKey::MetaRight),
        DaemonKey::ControlLeft => (DaemonKey::ControlLeft, DaemonKey::ControlRight),
        DaemonKey::ShiftLeft => (DaemonKey::ShiftLeft, DaemonKey::ShiftRight),
        DaemonKey::Alt => (DaemonKey::Alt, DaemonKey::AltGr),
        _ => (k, k),
    }
}

/// Whether the configured hotkey is complete among the held keys.
pub fn check_hotkey(pressed: &PressedKeys, hotkey: &Hotkey) -> (r: bool)
    ensures
        r == hotkey_held(hotkey.key@, modifier_names(hotkey), pressed.held()),
{
    let ghost mods = modifier_names(hotkey);
    let mut all_modifiers = true;
    let mut i: usize = 0;
    while i < hotkey.modifiers.len() && all_modifiers
        invariant
            i <= hotkey.modifiers@.len(),
            mods == modifier_names(hotkey),
            all_modifiers ==> forall|j: int| 0 <= j < i ==> modifier_held(#[trigger] mods[j], pressed.held()),
            !all_modifiers ==> exists|j: int| 0 <= j < mods.len() && !modifier_held(#[trigger] mods[j], pressed.held()),
        decreases hotkey.modifiers.len() - i,
    {
        assert(mods[i as int] == hotkey.modifiers@[i as int]@);
        match map_modifier_str_to_key(hotkey.modifiers[i].as_str()) {
            Some(k) => {
                let (left, right) = variants_of(k);
                if !pressed.contains(left) && !pressed.contains(right) {
                    all_modifiers = false;
                    assert(!modifier_held(mods[i as int], pressed.held()));
                }
            },
            None => {
                all_modifiers = false;
                assert(!modifier_held(mods[i as int], pressed.held()));
            },
        }
        i = i + 1;
    }
    let main_pressed = match map_main_key_str_to_key(hotkey.key.as_str()) {
        Some(k) => pressed.contains(k),
        None => false,
    };
    all_modifiers && main_pressed
}

/// The listener's next state and request for an event: a press is recorded and, when it
/// completes the hotkey, asks to open the launcher unless it is open already (which it then
/// counts as open); a release is recorded; anything else changes nothing.
pub open spec fn listener_step(
    held: Set<DaemonKey>,
    running: bool,
    event: InputEvent,
    key: Seq<char>,
    modifiers: Seq<Seq<char>>,
) -> (Set<DaemonKey>, bool, HotkeyAction) {
    match event {
        InputEvent::KeyPress(k) => {
            let now = held.insert(k);
            if hotkey_held(key, modifiers, now) {
                if running {
                    (now, running, HotkeyAction::AlreadyRunning)
                } else {
                    (now, true, HotkeyAction::Launch)
                }
            } else {
                (now, running, HotkeyAction::Nothing)
            }
        },
        InputEvent::KeyRelease(k) => (held.remove(k), running, HotkeyAction::Nothing),
        InputEvent::Other => (held, running, HotkeyAction::Nothing),
    }
}

impl HotkeyListener {
    /// No key held, no launcher open.
    pub fn new() -> (r: HotkeyListener)
        ensures
            r.pressed.held() == Set::<DaemonKey>::empty(),
            !r.tui_running,
    {
        HotkeyListener { pressed: PressedKeys::new(), tui_running: false }
    }

    /// Handles one keyboard event.
    pub fn handle_event(&mut self, event: InputEvent, hotkey: &Hotkey) -> (r: HotkeyAction)
        ensures
            (final(self).pressed.held(), final(self).tui_running, r) == listener_step(
                old(self).pressed.held(),
                old(self).tui_running,
                event,
                hotkey.key@,
                modifier_names(hotkey),
            ),
    {
        match event {
            InputEvent::KeyPress(k) => {
                self.pressed.insert(k);
                if check_hotkey(&self.pressed, hotkey) {
                    if !self.tui_running {
                        self.tui_running = true;
                        HotkeyAction::Launch
                    } else {
                        HotkeyAction::AlreadyRunning
                    }
                } else {
                    HotkeyAction::Nothing
                }
            },
            InputEvent::KeyRelease(k) => {
                self.pressed.remove(k);
                HotkeyAction::Nothing
            },
            InputEvent::Other => HotkeyAction::Nothing,
        }
    }

    /// Records that the launcher has closed.
    pub fn launch_finished(&mut self)
        ensures
            final(self).pressed.held() == old(self).pressed.held(),
            !final(self).tui_running,
    {
        self.tui_running = false;
    }
}

// ----- Opening the launcher in a terminal -----

/// The terminal that a configured name selects: `Ghostty`, `Terminal`, or Terminal.app for any
/// other name.
pub open spec fn terminal_kind_of(name: Seq<char>) -> TerminalKind {
    if name == "Ghostty"@ {
        TerminalKind::Ghostty
    } else if name == "Terminal"@ {
        TerminalKind::TerminalApp
    } else {
        TerminalKind::UnsupportedFallback
    }
}

/// The terminal that a configured name selects.
pub fn terminal_kind(name: &str) -> (r: TerminalKind)
    ensures
        r == terminal_kind_of(name@),
{
    if str_eq(name, "Ghostty") {
        TerminalKind::Ghostty
    } else if str_eq(name, "Terminal") {
        TerminalKind::TerminalApp
    } else {
        TerminalKind::UnsupportedFallback
    }
}

/// The arguments of each string of a list.
pub open spec fn view_args(args: Seq<String>) -> Seq<Seq<char>> {
    args.map_values(|s: String| s@)
}

/// The arguments to `open` that start Ghostty at a position and size, running `command_path`
/// in a shell that exits after it.
pub open spec fn ghostty_args(path: Seq<char>, x: int, y: int, columns: int, rows: int) -> Seq<Seq<char>> {
    seq![
        "-a"@,
        "Ghostty"@,
        "-n"@,
        "--args"@,
        "--window-position-x="@ + signed_decimal(x),
        "--window-position-y="@ + signed_decimal(y),
        "--window-width="@ + signed_decimal(columns),
        "--window-height="@ + signed_decimal(rows),
        "--title=TermLaunch"@,
        "-e"@,
        "sh"@,
        "-c"@,
        "\""@ + path + "\"; exit"@,
    ]
}

/// The first part of the AppleScript, up to the command.
pub open spec fn script_head() -> Seq<char> {
    "\n        tell application \"Terminal\"\n            -- 1. Create the window by running the script. This returns a reference to the tab.\n            set term_tab to do script quoted form of \""@
}

/// The part of the AppleScript between the command and the window bounds.
pub open spec fn script_middle() -> Seq<char> {
    "\"\n            \n            -- 2. Activate the application to bring it to the front.\n            activate\n            \n            -- 3. Now that it's frontmost, set its bounds.\n            tell front window to set its bounds to { "@
}

/// The last part of the AppleScript, after the window bounds.
pub open spec fn script_tail() -> Seq<char> {
    " }\n            \n            -- 4. Poll until the command in the tab is no longer busy.\n            repeat while busy of term_tab\n                delay 0.2\n            end repeat\n            \n            -- 5. Once the command is done, close the window.\n            close front window\n        end tell\n        "@
}

/// The AppleScript that runs `command_path` in a new Terminal.app window with the given bounds,
/// waits for it, and closes the window.
pub open spec fn terminal_script(path: Seq<char>, x1: int, y1: int, x2: int, y2: int) -> Seq<char> {
    script_head() + path + script_middle() + signed_decimal(x1) + ", "@ + signed_decimal(y1)
        + ", "@ + signed_decimal(x2) + ", "@ + signed_decimal(y2) + script_tail()
}

fn prefixed(prefix: &str, v: i32) -> (r: String)
    ensures
        r@ == prefix@ + signed_decimal(v as int),
{
    String::from_str(prefix).concat(i32_to_string(v).as_str())
}

fn push_arg(args: &mut Vec<String>, a: String)
    ensures
        view_args(final(args)@) == view_args(old(args)@).push(a@),
{
    args.push(a);
    assert(view_args(final(args)@) =~= view_args(old(args)@).push(a@));
}

/// The command that opens Ghostty at (`x`, `y`) with `columns` by `rows`, titled
/// TermLaunch, running `command_path` in `sh`.
pub fn open_with_ghostty(command_path: &str, x: i32, y: i32, columns: i32, rows: i32) -> (r: TerminalCommand)
    ensures
        r.program@ == "open"@,
        view_args(r.args@) == ghostty_args(command_path@, x as int, y as int, columns as int, rows as int),
{
    let mut args: Vec<String> = Vec::new();
    assert(view_args(args@) =~= Seq::<Seq<char>>::empty());
    push_arg(&mut args, String::from_str("-a"));
    push_arg(&mut args, String::from_str("Ghostty"));
    push_arg(&mut args, String::from_str("-n"));
    push_arg(&mut args, String::from_str("--args"));
    push_arg(&mut args, prefixed("--window-position-x=", x));
    push_arg(&mut args, prefixed("--window-position-y=", y));
    push_arg(&mut args, prefixed("--window-width=", columns));
    push_arg(&mut args, prefixed("--window-height=", rows));
    push_arg(&mut args, String::from_str("--title=TermLaunch"));
    push_arg(&mut args, String::from_str("-e"));
    push_arg(&mut args, String::from_str("sh"));
    push_arg(&mut args, String::from_str("-c"));
    push_arg(&mut args, String::from_str("\"").concat(command_path).concat("\"; exit"));
    assert(view_args(args@) =~= ghostty_args(command_path@, x as int, y as int, columns as int, rows as int));
    TerminalCommand { program: String::from_str("open"), args }
}

/// The command that runs `command_path` in a new Terminal.app window with bounds
/// (`x1`, `y1`, `x2`, `y2`) through `osascript`.
pub fn open_with_default_terminal(command_path: &str, x1: i32, y1: i32, x2: i32, y2: i32) -> (r: TerminalCommand)
    ensures
        r.program@ == "osascript"@,
        view_args(r.args@) == seq!["-e"@, terminal_script(command_path@, x1 as int, y1 as int, x2 as int, y2 as int)],
{
    let sep = ", ";
    let script = String::from_str("\n        tell application \"Terminal\"\n            -- 1. Create the window by running the script. This returns a reference to the tab.\n            set term_tab to do script quoted form of \"")
        .concat(command_path)
        .concat("\"\n            \n            -- 2. Activate the application to bring it to the front.\n            activate\n            \n            -- 3. Now that it's frontmost, set its bounds.\n            tell front window to set its bounds to { ")
        .concat(i32_to_string(x1).as_str())
        .concat(sep)
        .concat(i32_to_string(y1).as_str())
        .concat(sep)
        .concat(i32_to_string(x2).as_str())
        .concat(sep)
        .concat(i32_to_string(y2).as_str())
        .concat(" }\n            \n            -- 4. Poll until the command in the tab is no longer busy.\n            repeat while busy of term_tab\n                delay 0.2\n            end repeat\n            \n            -- 5. Once the command is done, close the window.\n            close front window\n        end tell\n        ");
    proof {
        reveal_strlit(", ");
    }
    let mut args: Vec<String> = Vec::new();
    assert(view_args(args@) =~= Seq::<Seq<char>>::empty());
    push_arg(&mut args, String::from_str("-e"));
    push_arg(&mut args, script);
    assert(view_args(args@) =~= seq!["-e"@, terminal_script(command_path@, x1 as int, y1 as int, x2 as int, y2 as int)]);
    TerminalCommand { program: String::from_str("osascript"), args }
}

/// The command that opens `command_path` in the configured terminal: Ghostty at
/// `ghostty_position` with the configured columns and rows, or Terminal.app (also for an
/// unsupported name) with `terminal_bounds`.
pub fn open_in_configured_terminal(
    terminal: &PrimaryTerminal,
    command_path: &str,
    ghostty_position: (i32, i32),
    terminal_bounds: (i32, i32, i32, i32),
) -> (r: TerminalCommand)
    ensures
        terminal_kind_of(terminal.terminal@) == TerminalKind::Ghostty ==> r.program@ == "open"@
            && view_args(r.args@) == ghostty_args(
            command_path@,
            ghostty_position.0 as int,
            ghostty_position.1 as int,
            terminal.default_columns as int,
            terminal.default_rows as int,
        ),
        terminal_kind_of(terminal.terminal@) != TerminalKind::Ghostty ==> r.program@
            == "osascript"@ && view_args(r.args@) == seq![
            "-e"@,
            terminal_script(
                command_path@,
                terminal_bounds.0 as int,
                terminal_bounds.1 as int,
                terminal_bounds.2 as int,
                terminal_bounds.3 as int,
            ),
        ],
{
    match terminal_kind(terminal.terminal.as_str()) {
        TerminalKind::Ghostty => open_with_ghostty(
            command_path,
            ghostty_position.0,
            ghostty_position.1,
            terminal.default_columns,
            terminal.default_rows,
        ),
        _ => open_with_default_terminal(
            command_path,
            terminal_bounds.0,
            terminal_bounds.1,
            terminal_bounds.2,
            terminal_bounds.3,
        ),
    }
}

// ----- Properties -----

/// Pressing a key that was not held and releasing it leaves the held keys as they were.
pub proof fn lemma_press_release_restores(
    held: Set<DaemonKey>,
    running: bool,
    k: DaemonKey,
    key: Seq<char>,
    modifiers: Seq<Seq<char>>,
)
    requires
        !held.contains(k),
    ensures
        ({
            let (after_press, running1, _) = listener_step(
                held,
                running,
                InputEvent::KeyPress(k),
                key,
                modifiers,
            );
            listener_step(after_press, running1, InputEvent::KeyRelease(k), key, modifiers).0
                == held
        }),
{
    assert(held.insert(k).remove(k) =~= held);
}

/// While the launcher is open no event asks to open another, and no event closes it.
pub proof fn lemma_no_second_launch(
    held: Set<DaemonKey>,
    event: InputEvent,
    key: Seq<char>,
    modifiers: Seq<Seq<char>>,
)
    ensures
        listener_step(held, true, event, key, modifiers).2 != HotkeyAction::Launch,
        listener_step(held, true, event, key, modifiers).1,
{
}

/// A launch is asked for exactly when a press completes the hotkey while no launcher is open,
/// and the launcher then counts as open.
pub proof fn lemma_launch_exactly_on_completion(
    held: Set<DaemonKey>,
    running: bool,
    event: InputEvent,
    key: Seq<char>,
    modifiers: Seq<Seq<char>>,
)
    ensures
        (listener_step(held, running, event, key, modifiers).2 == HotkeyAction::Launch) <==> (
        !running && event is KeyPress && hotkey_held(key, modifiers, held.insert(event->KeyPress_0))),
        listener_step(held, running, event, key, modifiers).2 == HotkeyAction::Launch
            ==> listener_step(held, running, event, key, modifiers).1,
{
}

/// Releasing a key never asks for anything.
pub proof fn lemma_release_is_quiet(
    held: Set<DaemonKey>,
    running: bool,
    k: DaemonKey,
    key: Seq<char>,
    modifiers: Seq<Seq<char>>,
)
    ensures
        listener_step(held, running, InputEvent::KeyRelease(k), key, modifiers).2
            == HotkeyAction::Nothing,
{
}

/// A configured modifier name that names no key means the hotkey never completes; so does a
/// main key name that names no key.
pub proof fn lemma_unknown_name_never_fires(
    key: Seq<char>,
    modifiers: Seq<Seq<char>>,
    held: Set<DaemonKey>,
)
    requires
        main_key(key) is None || exists|i: int|
            0 <= i < modifiers.len() && modifier_key(#[trigger] modifiers[i]) is None,
    ensures
        !hotkey_held(key, modifiers, held),
{
}

/// Either side of a modifier serves: holding its left key, or its right key, makes it held.
pub proof fn lemma_either_side_serves(name: Seq<char>, held: Set<DaemonKey>)
    requires
        modifier_key(name) is Some,
    ensures
        modifier_held(name, held.insert(key_variants(modifier_key(name)->0).0)),
        modifier_held(name, held.insert(key_variants(modifier_key(name)->0).1)),
{
}

/// Starting with no launcher open, an event leaves one counted as open only when it asks for a
/// launch; `launch_finished`, called once that launcher has closed, counts none as open again.
/// So the guard is released after every event.
pub proof fn lemma_guard_released(
    held: Set<DaemonKey>,
    event: InputEvent,
    key: Seq<char>,
    modifiers: Seq<Seq<char>>,
)
    ensures
        listener_step(held, false, event, key, modifiers).1 ==> listener_step(
            held,
            false,
            event,
            key,
            modifiers,
        ).2 == HotkeyAction::Launch,
{
}

/// A configured modifier is held exactly when one of its own keys, left or right, is held:
/// `Meta` by either Command key, `Control` by either Control key, `Shift` by either Shift key,
/// `Alt` by Alt or AltGr; any other name never.
pub proof fn lemma_modifier_keys(held: Set<DaemonKey>, name: Seq<char>)
    ensures
        name == "Meta"@ ==> (modifier_held(name, held) <==> held.contains(DaemonKey::MetaLeft)
            || held.contains(DaemonKey::MetaRight)),
        name == "Control"@ ==> (modifier_held(name, held) <==> held.contains(
            DaemonKey::ControlLeft,
        ) || held.contains(DaemonKey::ControlRight)),
        name == "Shift"@ ==> (modifier_held(name, held) <==> held.contains(DaemonKey::ShiftLeft)
            || held.contains(DaemonKey::ShiftRight)),
        name == "Alt"@ ==> (modifier_held(name, held) <==> held.contains(DaemonKey::Alt)
            || held.contains(DaemonKey::AltGr)),
        name != "Meta"@ && name != "Control"@ && name != "Shift"@ && name != "Alt"@
            ==> !modifier_held(name, held),
{
    reveal_strlit("Meta");
    reveal_strlit("Control");
    reveal_strlit("Shift");
    reveal_strlit("Alt");
    assert("Meta"@.len() == 4 && "Control"@.len() == 7 && "Shift"@.len() == 5 && "Alt"@.len() == 3);
}

/// The main key names stand for their own keys: the hotkey with modifiers `ms` and main key
/// `Space`, `Return` or `Escape` is complete exactly when the modifiers are held and that key is.
pub proof fn lemma_main_keys(held: Set<DaemonKey>, name: Seq<char>, ms: Seq<Seq<char>>)
    ensures
        name == "Space"@ ==> (hotkey_held(name, ms, held) <==> (forall|i: int|
            0 <= i < ms.len() ==> modifier_held(#[trigger] ms[i], held)) && held.contains(
            DaemonKey::Space,
        )),
        name == "Return"@ ==> (hotkey_held(name, ms, held) <==> (forall|i: int|
            0 <= i < ms.len() ==> modifier_held(#[trigger] ms[i], held)) && held.contains(
            DaemonKey::Return,
        )),
        name == "Escape"@ ==> (hotkey_held(name, ms, held) <==> (forall|i: int|
            0 <= i < ms.len() ==> modifier_held(#[trigger] ms[i], held)) && held.contains(
            DaemonKey::Escape,
        )),
{
    reveal_strlit("Space");
    reveal_strlit("Return");
    reveal_strlit("Escape");
    assert("Space"@.len() == 5 && "Return"@.len() == 6);
    assert("Return"@[0] != "Escape"@[0]);
    assert("Space"@ != "Return"@ && "Space"@ != "Escape"@ && "Return"@ != "Escape"@);
}

/// The Terminal.app script waits for the launcher: it polls `repeat while busy of term_tab`,
/// and only after that closes the window.
pub proof fn lemma_terminal_script_waits(path: Seq<char>, x1: int, y1: int, x2: int, y2: int)
    ensures
        ({
            let s = terminal_script(path, x1, y1, x2, y2);
            let a = "repeat while busy of term_tab"@;
            let b = "close front window"@;
            exists|i: int, j: int|
                0 <= i && i + a.len() <= j && j + b.len() <= s.len() && #[trigger] s.subrange(
                    i,
                    i + a.len(),
                ) == a && #[trigger] s.subrange(j, j + b.len()) == b
        }),
{
    let s = terminal_script(path, x1, y1, x2, y2);
    let a = "repeat while busy of term_tab"@;
    let b = "close front window"@;
    reveal_strlit("repeat while busy of term_tab");
    reveal_strlit("close front window");
    reveal_strlit(" }\n            \n            -- 4. Poll until the command in the tab is no longer busy.\n            repeat while busy of term_tab\n                delay 0.2\n            end repeat\n            \n            -- 5. Once the command is done, close the window.\n            close front window\n        end tell\n        ");
    let tail = script_tail();
    let pre = script_head() + path + script_middle() + signed_decimal(x1) + ", "@ + signed_decimal(
        y1,
    ) + ", "@ + signed_decimal(x2) + ", "@ + signed_decimal(y2);
    assert(s == pre + tail);
    assert(tail.len() == 309);
    assert(tail.subrange(99, 128) =~= a);
    assert(tail.subrange(265, 283) =~= b);
    let i: int = pre.len() as int + 99;
    let j: int = pre.len() as int + 265;
    assert(s.subrange(i, i + a.len() as int) =~= tail.subrange(99, 128));
    assert(s.subrange(j, j + b.len() as int) =~= tail.subrange(265, 283));
}

} // verus!
