//! The launcher's state: what was typed, which suggestions it gives, which one is selected, and
//! in which mode it is. Every operation is stated as a step of the `AppView` model.

use vstd::prelude::*;
use crate::config::Shortcut;
use crate::keys::{event_matches, is_shortcut, KeyCode, KeyEvent, KeyEventKind};
use crate::text::{
    ascii_lower, chars_of, contains_chars, lower, lowercase, pop_char, push_char, seq_contains, str_eq,
};

verus! {

/// The launcher's modes.
#[derive(Debug, Clone, Copy, PartialEq, Eq, Structural)]
pub enum AppMode {
    AppLauncher,
    FileSearch,
    ShellExecution,
    ClipboardHistory,
}

/// An installed application.
#[derive(Debug, Clone, PartialEq, Eq)]
pub struct Application {
    pub name: String,
    pub icon: String,
    pub path: String,
}

/// One suggestion in the list under the input line.
#[derive(Debug, Clone, PartialEq, Eq)]
pub enum Suggestion {
    App(Application),
    File(String),
    Shell(String),
    Clipboard(String),
    Calc(String),
}

/// The launcher's state.
#[derive(Debug)]
pub struct App {
    pub input: String,
    pub suggestions: Vec<Suggestion>,
    pub selected_index: usize,
    pub current_mode: AppMode,
}

/// A colour as red, green and blue components.
#[derive(Debug, Clone, Copy, PartialEq, Eq, Structural)]
pub struct Rgb {
    pub r: u8,
    pub g: u8,
    pub b: u8,
}

/// What the event loop does after one event.
#[derive(Debug, Clone, PartialEq, Eq)]
pub enum RunAction {
    /// Keep running.
    Continue,
    /// Leave the launcher.
    Quit,
    /// Leave the launcher and open the application at this path.
    Launch(String),
}

/// An application as three character sequences.
#[verifier::ext_equal]
pub struct ApplicationView {
    pub name: Seq<char>,
    pub icon: Seq<char>,
    pub path: Seq<char>,
}

/// A suggestion over character sequences.
#[verifier::ext_equal]
pub enum SuggestionView {
    App(ApplicationView),
    File(Seq<char>),
    Shell(Seq<char>),
    Clipboard(Seq<char>),
    Calc(Seq<char>),
}

/// The launcher's state over mathematical values.
#[verifier::ext_equal]
pub struct AppView {
    pub input: Seq<char>,
    pub suggestions: Seq<SuggestionView>,
    pub selected: int,
    pub mode: AppMode,
}

/// What the event loop does, over character sequences.
#[verifier::ext_equal]
pub enum RunActionView {
    Continue,
    Quit,
    Launch(Seq<char>),
}

impl View for Application {
    type V = ApplicationView;

    open spec fn view(&self) -> ApplicationView {
        ApplicationView { name: self.name@, icon: self.icon@, path: self.path@ }
    }
}

impl View for Suggestion {
    type V = SuggestionView;

    open spec fn view(&self) -> SuggestionView {
        match self {
            Suggestion::App(a) => SuggestionView::App(a@),
            Suggestion::File(s) => SuggestionView::File(s@),
            Suggestion::Shell(s) => SuggestionView::Shell(s@),
            Suggestion::Clipboard(s) => SuggestionView::Clipboard(s@),
            Suggestion::Calc(s) => SuggestionView::Calc(s@),
        }
    }
}

impl View for RunAction {
    type V = RunActionView;

    open spec fn view(&self) -> RunActionView {
        match self {
            RunAction::Continue => RunActionView::Continue,
            RunAction::Quit => RunActionView::Quit,
            RunAction::Launch(p) => RunActionView::Launch(p@),
        }
    }
}

/// The applications of a list, each by its view.
pub open spec fn view_apps(apps: Seq<Application>) -> Seq<ApplicationView> {
    apps.map_values(|a: Application| a@)
}

/// An optional suggestion by its view.
pub open spec fn view_option(o: Option<Suggestion>) -> Option<SuggestionView> {
    match o {
        Some(s) => Some(s@),
        None => None,
    }
}

/// The suggestions of a list, each by its view.
pub open spec fn view_suggestions(s: Seq<Suggestion>) -> Seq<SuggestionView> {
    s.map_values(|x: Suggestion| x@)
}

impl View for App {
    type V = AppView;

    open spec fn view(&self) -> AppView {
        AppView {
            input: self.input@,
            suggestions: view_suggestions(self.suggestions@),
            selected: self.selected_index as int,
            mode: self.current_mode,
        }
    }
}

impl Application {
    /// A copy with the same three strings.
    pub fn copy(&self) -> (r: Application)
        ensures
            r@ == self@,
    {
        Application { name: self.name.clone(), icon: self.icon.clone(), path: self.path.clone() }
    }
}

// ----- The model -----

/// The mode that a configured mode name starts the launcher in.
pub open spec fn mode_named(name: Seq<char>) -> AppMode {
    if name == "file"@ {
        AppMode::FileSearch
    } else if name == "shell"@ {
        AppMode::ShellExecution
    } else if name == "clipboard"@ {
        AppMode::ClipboardHistory
    } else {
        AppMode::AppLauncher
    }
}

/// The colour that marks each mode.
pub open spec fn mode_color(mode: AppMode) -> Rgb {
    match mode {
        AppMode::AppLauncher => Rgb { r: 0x95, g: 0x7f, b: 0xb8 },
        AppMode::FileSearch => Rgb { r: 0x76, g: 0x94, b: 0x6a },
        AppMode::ShellExecution => Rgb { r: 0xc3, g: 0x40, b: 0x43 },
        AppMode::ClipboardHistory => Rgb { r: 0xc0, g: 0xa3, b: 0x6e },
    }
}

/// The applications, in order, whose lower-cased name contains `needle`, each as a suggestion.
pub open spec fn matching_apps(apps: Seq<ApplicationView>, needle: Seq<char>) -> Seq<
    SuggestionView,
>
    decreases apps.len(),
{
    if apps.len() == 0 {
        seq![]
    } else {
        let rest = matching_apps(apps.drop_last(), needle);
        if seq_contains(lowercase(apps.last().name), needle) {
            rest.push(SuggestionView::App(apps.last()))
        } else {
            rest
        }
    }
}

/// The text of the clipboard suggestion.
pub open spec fn clipboard_text() -> Seq<char> {
    "Last copied text..."@
}

/// The suggestions that a mode gives for an input, before the calculator is asked.
pub open spec fn mode_suggestions(mode: AppMode, input: Seq<char>, apps: Seq<ApplicationView>) -> Seq<
    SuggestionView,
> {
    match mode {
        AppMode::AppLauncher => if input.len() == 0 {
            seq![]
        } else {
            matching_apps(apps, lowercase(input))
        },
        AppMode::FileSearch => if input.len() == 0 {
            seq![]
        } else {
            seq![SuggestionView::File("Search file: "@ + input)]
        },
        AppMode::ShellExecution => if input.len() == 0 {
            seq![]
        } else {
            seq![SuggestionView::Shell("Run: "@ + input)]
        },
        AppMode::ClipboardHistory => seq![SuggestionView::Clipboard(clipboard_text())],
    }
}

/// The bits of a finite double: its exponent field is not all ones.
pub open spec fn finite_bits(bits: u64) -> bool {
    (bits >> 52u64) & 0x7ffu64 != 0x7ffu64
}

/// The calculator's suggestion for a result: its text, when the value is finite.
pub open spec fn calc_suggestion_of(result: Option<(u64, Seq<char>)>) -> Option<SuggestionView> {
    match result {
        Some((bits, text)) => if finite_bits(bits) {
            Some(SuggestionView::Calc(text))
        } else {
            None
        },
        None => None,
    }
}

/// The characters that the calculator skips as blanks.
pub open spec fn is_blank_char(c: char) -> bool {
    c == ' ' || c == '\t' || c == '\r' || c == '\n'
}

/// A non-empty input made of blanks only: the calculator cannot take it.
pub open spec fn is_blank(input: Seq<char>) -> bool {
    input.len() > 0 && forall|i: int| 0 <= i < input.len() ==> is_blank_char(#[trigger] input[i])
}

/// The calculator is asked about an input when the mode gives no suggestion for it and it holds
/// something besides blanks.
pub open spec fn calculator_asked(mode: AppMode, input: Seq<char>, apps: Seq<ApplicationView>) -> bool {
    mode_suggestions(mode, input, apps).len() == 0 && input.len() > 0 && !is_blank(input)
}

/// What meval makes of an expression, as far as it depends on the text alone: `None` when meval
/// does not take it (it cannot parse it, does not know a name, or finds the wrong number of
/// arguments for a function); otherwise `Some(Some(bits))` for an expression whose value does not
/// depend on the machine (one built from decimal numerals, the constants `pi` and `e`,
/// parentheses, blanks, unary `+` and `-`, and the binary `+`, `-`, `*`, `/` and `%`, which IEEE
/// 754 rounds exactly, whose value is not NaN), and `Some(None)` for every other expression it
/// takes.
pub uninterp spec fn meval_outcome(expr: Seq<char>) -> Option<Option<u64>>;

/// Whether meval takes an expression.
pub open spec fn meval_accepts(expr: Seq<char>) -> bool {
    meval_outcome(expr) is Some
}

/// The bits of meval's value for an expression whose value does not depend on the machine, else
/// `None`.
pub open spec fn meval_exact(expr: Seq<char>) -> Option<u64> {
    match meval_outcome(expr) {
        Some(Some(b)) => Some(b),
        _ => None,
    }
}

/// The decimal text that `f64`'s `Display` gives for the double with these bits.
pub uninterp spec fn f64_text(bits: u64) -> Seq<char>;

/// An answer of the calculator fits an input: it is a value exactly when meval takes the input,
/// its text is the value's `Display`, and its value is meval's exact one where there is one.
pub open spec fn answer_fits(input: Seq<char>, calc: Option<(u64, Seq<char>)>) -> bool {
    &&& (calc is Some <==> meval_accepts(input))
    &&& (calc matches Some((b, t)) ==> t == f64_text(b))
    &&& (meval_exact(input) matches Some(b) ==> calc == Some((b, f64_text(b))))
}

/// All suggestions for an input, given `calc`, what the calculator made of the input (its
/// IEEE-754 bits and decimal text, or `None` when it rejected it): the mode's own, or, when the
/// calculator is asked, its answer if the value is finite.
pub open spec fn expected_suggestions(
    mode: AppMode,
    input: Seq<char>,
    apps: Seq<ApplicationView>,
    calc: Option<(u64, Seq<char>)>,
) -> Seq<SuggestionView> {
    if calculator_asked(mode, input, apps) {
        match calc_suggestion_of(calc) {
            Some(s) => seq![s],
            None => seq![],
        }
    } else {
        mode_suggestions(mode, input, apps)
    }
}

/// The state with its suggestions computed afresh (the calculator having answered `calc`) and
/// the first one selected.
pub open spec fn refresh(s: AppView, apps: Seq<ApplicationView>, calc: Option<(u64, Seq<char>)>) -> AppView {
    AppView { suggestions: expected_suggestions(s.mode, s.input, apps, calc), selected: 0, ..s }
}

/// The state after one key, the calculator having answered `calc` for the new input.
pub open spec fn key_step(
    s: AppView,
    key: KeyCode,
    apps: Seq<ApplicationView>,
    calc: Option<(u64, Seq<char>)>,
) -> AppView {
    match key {
        KeyCode::Char(c) => refresh(AppView { input: s.input.push(c), ..s }, apps, calc),
        KeyCode::Backspace => refresh(
            AppView {
                input: if s.input.len() == 0 {
                    s.input
                } else {
                    s.input.drop_last()
                },
                ..s
            },
            apps,
            calc,
        ),
        KeyCode::Up => if s.selected > 0 {
            AppView { selected: s.selected - 1, ..s }
        } else {
            s
        },
        KeyCode::Down => if s.suggestions.len() > 0 && s.selected < s.suggestions.len() - 1 {
            AppView { selected: s.selected + 1, ..s }
        } else {
            s
        },
        _ => s,
    }
}

/// The mode whose shortcut the event is, the bindings tried in the order apps, files, shell,
/// clipboard.
pub open spec fn shortcut_mode(event: KeyEvent, shortcuts: Shortcut) -> Option<AppMode> {
    if event_matches(event, shortcuts.apps@) {
        Some(AppMode::AppLauncher)
    } else if event_matches(event, shortcuts.files@) {
        Some(AppMode::FileSearch)
    } else if event_matches(event, shortcuts.shell@) {
        Some(AppMode::ShellExecution)
    } else if event_matches(event, shortcuts.clipboard@) {
        Some(AppMode::ClipboardHistory)
    } else {
        None
    }
}

/// The state after switching to `mode`: the input cleared and the suggestions computed afresh.
pub open spec fn switch_mode(
    s: AppView,
    mode: AppMode,
    apps: Seq<ApplicationView>,
    calc: Option<(u64, Seq<char>)>,
) -> AppView {
    refresh(AppView { mode, input: seq![], ..s }, apps, calc)
}

/// The selected suggestion, when the selection points at one.
pub open spec fn selected_suggestion(s: AppView) -> Option<SuggestionView> {
    if 0 <= s.selected < s.suggestions.len() {
        Some(s.suggestions[s.selected])
    } else {
        None
    }
}

/// The event holds no modifier key.
pub open spec fn no_modifiers(event: KeyEvent) -> bool {
    &&& !event.modifiers.shift
    &&& !event.modifiers.control
    &&& !event.modifiers.alt
    &&& !event.modifiers.super_key
    &&& !event.modifiers.hyper
    &&& !event.modifiers.meta
}

/// The state after one event, and what the event loop does next, the calculator having answered
/// `calc` where it was asked.
pub open spec fn event_step(
    s: AppView,
    event: KeyEvent,
    shortcuts: Shortcut,
    apps: Seq<ApplicationView>,
    calc: Option<(u64, Seq<char>)>,
) -> (AppView, RunActionView) {
    if event.kind != KeyEventKind::Press {
        (s, RunActionView::Continue)
    } else {
        match shortcut_mode(event, shortcuts) {
            Some(m) => (switch_mode(s, m, apps, calc), RunActionView::Continue),
            None => match event.code {
                KeyCode::Esc => (s, RunActionView::Quit),
                KeyCode::Char('q') if no_modifiers(event) => (s, RunActionView::Quit),
                KeyCode::Enter => match selected_suggestion(s) {
                    Some(SuggestionView::App(a)) => (s, RunActionView::Launch(a.path)),
                    _ => (s, RunActionView::Continue),
                },
                _ => (key_step(s, event.code, apps, calc), RunActionView::Continue),
            },
        }
    }
}

/// `new` is `old` refreshed for some answer of the calculator that fits its input.
pub open spec fn refreshed(old: AppView, new: AppView, apps: Seq<ApplicationView>) -> bool {
    exists|calc: Option<(u64, Seq<char>)>|
        answer_fits(old.input, calc) && new == #[trigger] refresh(old, apps, calc)
}

/// `new` is `old` after `key`, for some answer of the calculator that fits the new input.
pub open spec fn key_stepped(old: AppView, new: AppView, key: KeyCode, apps: Seq<ApplicationView>) -> bool {
    exists|calc: Option<(u64, Seq<char>)>|
        answer_fits(new.input, calc) && new == #[trigger] key_step(old, key, apps, calc)
}

/// `new` is `old` switched to `mode`, for some answer of the calculator that fits the new
/// (empty) input.
pub open spec fn mode_switched(old: AppView, new: AppView, mode: AppMode, apps: Seq<ApplicationView>) -> bool {
    exists|calc: Option<(u64, Seq<char>)>|
        answer_fits(new.input, calc) && new == #[trigger] switch_mode(old, mode, apps, calc)
}

/// `new` and `action` are `old` after `event`, for some answer of the calculator that fits the
/// new input.
pub open spec fn event_stepped(
    old: AppView,
    new: AppView,
    action: RunActionView,
    event: KeyEvent,
    shortcuts: Shortcut,
    apps: Seq<ApplicationView>,
) -> bool {
    exists|calc: Option<(u64, Seq<char>)>|
        answer_fits(new.input, calc) && (new, action) == #[trigger] event_step(
            old,
            event,
            shortcuts,
            apps,
            calc,
        )
}

/// An answer that fits `input`, for where the calculator is not asked.
pub open spec fn fitting_answer(input: Seq<char>) -> Option<(u64, Seq<char>)> {
    match meval_exact(input) {
        Some(b) => Some((b, f64_text(b))),
        None => if meval_accepts(input) {
            Some((0u64, f64_text(0u64)))
        } else {
            None
        },
    }
}

/// The selection points at a suggestion, or at the first place of an empty list.
pub open spec fn selection_valid(s: AppView) -> bool {
    s.selected == 0 || (0 <= s.selected < s.suggestions.len())
}

// ----- The calculator -----

/// Calls `meval::eval_str`, which parses and evaluates an arithmetic expression with meval's
/// built-in constants and functions, and hands back `None` for meval's error, else the value's
/// IEEE-754 bits (`f64::to_bits`) and decimal text (`f64::to_string`). Whether meval takes the
/// expression depends on the text alone, and so does the value of an expression made of numerals,
/// `pi`, `e` and the exactly rounded operators; the contract names both (`meval_outcome`). The
/// text is the value's `Display`, named `f64_text`.
/// Nothing more is stated of the value: meval computes `^` and its functions with std's
/// floating-point functions (`powf`, `sin`, ...), whose precision std leaves open across
/// platforms and even between calls, and a computed NaN's bits are not fixed either. On a text of blanks only, meval's tokenizer panics (it gets an incomplete
/// parse and treats it as impossible), so such a text is left out. meval's other `panic!`s guard
/// states that its tokenizer and shunting-yard conversion rule out.
#[verifier::external_body]
fn evaluate(expr: &str) -> (r: Option<(u64, String)>)
    requires
        !is_blank(expr@),
    ensures
        r is Some <==> meval_outcome(expr@) is Some,
        r.deep_view() matches Some((b, t)) ==> t == f64_text(b),
        meval_outcome(expr@) matches Some(Some(b)) ==> r.deep_view() == Some((b, f64_text(b))),
{
    match meval::eval_str(expr) {
        Ok(v) => Some((v.to_bits(), v.to_string())),
        Err(_) => None,
    }
}

/// Whether a text is non-empty and made of blanks (space, tab, carriage return, line feed) only.
pub fn is_blank_str(s: &str) -> (r: bool)
    ensures
        r == is_blank(s@),
{
    let cs = chars_of(s);
    if cs.len() == 0 {
        return false;
    }
    let mut i: usize = 0;
    while i < cs.len()
        invariant
            cs@ == s@,
            i <= cs@.len(),
            forall|j: int| 0 <= j < i ==> is_blank_char(#[trigger] cs@[j]),
        decreases cs.len() - i,
    {
        let c = cs[i];
        if !(c == ' ' || c == '\t' || c == '\r' || c == '\n') {
            assert(!is_blank_char(s@[i as int]));
            return false;
        }
        i = i + 1;
    }
    true
}

/// The calculator's suggestion for an evaluation result: the value's text when the value is
/// finite, none for an error, an infinity or NaN.
pub fn calc_suggestion(result: Option<(u64, String)>) -> (r: Option<Suggestion>)
    ensures
        view_option(r) == calc_suggestion_of(result.deep_view()),
{
    match result {
        Some((bits, text)) => {
            if (bits >> 52u64) & 0x7ffu64 != 0x7ffu64 {
                Some(Suggestion::Calc(text))
            } else {
                None
            }
        },
        None => None,
    }
}

// ----- Installed applications -----

/// The icon shown beside applications.
pub open spec fn app_icon() -> Seq<char> {
    "\u{f08c6}"@
}

/// The last component of a path: what follows its last `/`, or the whole path.
pub open spec fn last_component(p: Seq<char>) -> Seq<char>
    decreases p.len(),
{
    if p.len() == 0 {
        p
    } else if p.last() == '/' {
        seq![]
    } else {
        last_component(p.drop_last()).push(p.last())
    }
}

/// A file name with extension `app`: it ends in `.app` with something before it.
pub open spec fn is_app_bundle(name: Seq<char>) -> bool {
    name.len() > 4 && name.skip(name.len() - 4) == ".app"@
}

/// The applications among directory entries, in order: each entry whose name has the extension
/// `app`, named by its stem.
pub open spec fn applications_among(paths: Seq<Seq<char>>) -> Seq<ApplicationView>
    decreases paths.len(),
{
    if paths.len() == 0 {
        seq![]
    } else {
        let rest = applications_among(paths.drop_last());
        let p = paths.last();
        let name = last_component(p);
        if is_app_bundle(name) {
            rest.push(
                ApplicationView { name: name.take(name.len() - 4), icon: app_icon(), path: p },
            )
        } else {
            rest
        }
    }
}

fn last_component_of(p: &str) -> (r: Vec<char>)
    ensures
        r@ == last_component(p@),
{
    let cs = chars_of(p);
    let n = cs.len();
    let mut start: usize = 0;
    let mut i: usize = 0;
    while i < n
        invariant
            n == cs@.len(),
            cs@ == p@,
            start <= i <= n,
            last_component(p@.take(i as int)) == p@.subrange(start as int, i as int),
        decreases n - i,
    {
        assert(p@.take(i + 1).drop_last() =~= p@.take(i as int));
        if cs[i] == '/' {
            start = i + 1;
            assert(p@.subrange(start as int, i + 1) =~= Seq::<char>::empty());
        } else {
            assert(p@.subrange(start as int, i + 1) =~= p@.subrange(start as int, i as int).push(
                cs@[i as int],
            ));
        }
        i = i + 1;
    }
    assert(p@.take(n as int) =~= p@);
    let mut r: Vec<char> = Vec::new();
    let mut j: usize = start;
    while j < n
        invariant
            n == cs@.len(),
            cs@ == p@,
            start <= j <= n,
            r@ == p@.subrange(start as int, j as int),
        decreases n - j,
    {
        r.push(cs[j]);
        assert(p@.subrange(start as int, j + 1) =~= p@.subrange(start as int, j as int).push(
            cs@[j as int],
        ));
        j = j + 1;
    }
    r
}

fn string_of(cs: &Vec<char>, from: usize, to: usize) -> (r: String)
    requires
        from <= to <= cs@.len(),
    ensures
        r@ == cs@.subrange(from as int, to as int),
{
    let mut s = String::new();
    let mut i = from;
    while i < to
        invariant
            from <= i <= to,
            to <= cs@.len(),
            s@ == cs@.subrange(from as int, i as int),
        decreases to - i,
    {
        push_char(&mut s, cs[i]);
        assert(cs@.subrange(from as int, i + 1) =~= cs@.subrange(from as int, i as int).push(
            cs@[i as int],
        ));
        i = i + 1;
    }
    s
}

/// The applications among the paths of directory entries (a directory joined with an entry's
/// name): each whose file name ends in `.app` after at least one character, named by the part
/// before `.app`.
pub fn installed_applications(entry_paths: &Vec<String>) -> (r: Vec<Application>)
    ensures
        view_apps(r@) == applications_among(entry_paths@.map_values(|s: String| s@)),
{
    let ghost paths = entry_paths@.map_values(|s: String| s@);
    let mut apps: Vec<Application> = Vec::new();
    let mut i: usize = 0;
    while i < entry_paths.len()
        invariant
            i <= entry_paths@.len(),
            paths == entry_paths@.map_values(|s: String| s@),
            view_apps(apps@) == applications_among(paths.take(i as int)),
        decreases entry_paths.len() - i,
    {
        let path = &entry_paths[i];
        let name = last_component_of(path.as_str());
        let n = name.len();
        assert(paths.take(i + 1).drop_last() =~= paths.take(i as int));
        assert(paths.take(i + 1).last() == path@);
        if n > 4 && name[n - 4] == '.' && name[n - 3] == 'a' && name[n - 2] == 'p' && name[n - 1]
            == 'p' {
            proof {
                reveal_strlit(".app");
                assert(name@.skip(n - 4) =~= ".app"@);
            }
            let app = Application {
                name: string_of(&name, 0, n - 4),
                icon: String::from_str("\u{f08c6}"),
                path: path.clone(),
            };
            proof {
                assert(name@.take(n - 4) =~= name@.subrange(0, n - 4));
            }
            let ghost before = apps@;
            apps.push(app);
            assert(view_apps(apps@) =~= view_apps(before).push(app@));
        } else {
            proof {
                reveal_strlit(".app");
                if n > 4 {
                    let t = name@.skip(n - 4);
                    if t == ".app"@ {
                        assert(t[0] == name@[n - 4]);
                        assert(t[1] == name@[n - 3]);
                        assert(t[2] == name@[n - 2]);
                        assert(t[3] == name@[n - 1]);
                    }
                }
            }
        }
        i = i + 1;
    }
    assert(paths.take(entry_paths.len() as int) =~= paths);
    apps
}

// ----- The state and its operations -----

/// The mode that a configured mode name starts the launcher in: `file`, `shell`, `clipboard`,
/// or the application launcher for any other name.
pub fn mode_from_name(name: &str) -> (r: AppMode)
    ensures
        r == mode_named(name@),
{
    if str_eq(name, "file") {
        AppMode::FileSearch
    } else if str_eq(name, "shell") {
        AppMode::ShellExecution
    } else if str_eq(name, "clipboard") {
        AppMode::ClipboardHistory
    } else {
        AppMode::AppLauncher
    }
}

fn push_suggestion(v: &mut Vec<Suggestion>, s: Suggestion)
    ensures
        view_suggestions(final(v)@) == view_suggestions(old(v)@).push(s@),
{
    v.push(s);
    assert(view_suggestions(final(v)@) =~= view_suggestions(old(v)@).push(s@));
}

impl App {
    /// A launcher with nothing typed, no suggestions, the first place selected, in the mode that
    /// `default_mode` names.
    pub fn new(default_mode: &str) -> (r: App)
        ensures
            r@ == (AppView {
                input: seq![],
                suggestions: seq![],
                selected: 0,
                mode: mode_named(default_mode@),
            }),
    {
        let r = App {
            input: String::new(),
            suggestions: Vec::new(),
            selected_index: 0,
            current_mode: mode_from_name(default_mode),
        };
        assert(r@.suggestions =~= Seq::<SuggestionView>::empty());
        r
    }

    /// The colour that marks the current mode.
    pub fn get_mode_color(&self) -> (r: Rgb)
        ensures
            r == mode_color(self.current_mode),
    {
        match self.current_mode {
            AppMode::AppLauncher => Rgb { r: 0x95, g: 0x7f, b: 0xb8 },
            AppMode::FileSearch => Rgb { r: 0x76, g: 0x94, b: 0x6a },
            AppMode::ShellExecution => Rgb { r: 0xc3, g: 0x40, b: 0x43 },
            AppMode::ClipboardHistory => Rgb { r: 0xc0, g: 0xa3, b: 0x6e },
        }
    }

    /// Handles a key: a character is typed, backspace removes the last one (both recompute the
    /// suggestions against `apps`, the installed applications, asking the calculator when the
    /// mode has none); up and down move the selection within the list; other keys change nothing.
    pub fn on_key(&mut self, key: KeyCode, apps: &Vec<Application>)
        ensures
            key_stepped(old(self)@, final(self)@, key, view_apps(apps@)),
    {
        let ghost before = self@;
        let ghost all = view_apps(apps@);
        match key {
            KeyCode::Char(c) => {
                push_char(&mut self.input, c);
                let ghost mid = self@;
                self.update_suggestions(apps);
                proof {
                    let calc = choose|calc: Option<(u64, Seq<char>)>|
                        answer_fits(mid.input, calc) && self@ == #[trigger] refresh(mid, all, calc);
                    assert(self@ == key_step(before, key, all, calc));
                }
            },
            KeyCode::Backspace => {
                let _ = pop_char(&mut self.input);
                let ghost mid = self@;
                self.update_suggestions(apps);
                proof {
                    let calc = choose|calc: Option<(u64, Seq<char>)>|
                        answer_fits(mid.input, calc) && self@ == #[trigger] refresh(mid, all, calc);
                    assert(self@ == key_step(before, key, all, calc));
                }
            },
            KeyCode::Up => {
                if self.selected_index > 0 {
                    self.selected_index = self.selected_index - 1;
                }
                assert(self@ == key_step(before, key, all, fitting_answer(before.input)));
            },
            KeyCode::Down => {
                if self.suggestions.len() > 0 && self.selected_index < self.suggestions.len() - 1 {
                    self.selected_index = self.selected_index + 1;
                }
                assert(self@ == key_step(before, key, all, fitting_answer(before.input)));
            },
            _ => {
                assert(self@ == key_step(before, key, all, fitting_answer(before.input)));
            },
        }
    }

    /// Switches mode when the event is one of the mode shortcuts (apps, files, shell, clipboard,
    /// tried in that order): the input is cleared and the suggestions recomputed. Returns whether
    /// it switched; otherwise nothing changes.
    pub fn change_mode(&mut self, event: KeyEvent, shortcuts: &Shortcut, apps: &Vec<Application>) -> (r: bool)
        ensures
            r == shortcut_mode(event, *shortcuts) is Some,
            r ==> mode_switched(
                old(self)@,
                final(self)@,
                shortcut_mode(event, *shortcuts)->0,
                view_apps(apps@),
            ),
            !r ==> final(self)@ == old(self)@,
    {
        let ghost before = self@;
        let new_mode = if is_shortcut(event, shortcuts.apps.as_str()) {
            Some(AppMode::AppLauncher)
        } else if is_shortcut(event, shortcuts.files.as_str()) {
            Some(AppMode::FileSearch)
        } else if is_shortcut(event, shortcuts.shell.as_str()) {
            Some(AppMode::ShellExecution)
        } else if is_shortcut(event, shortcuts.clipboard.as_str()) {
            Some(AppMode::ClipboardHistory)
        } else {
            None
        };
        match new_mode {
            Some(mode) => {
                self.current_mode = mode;
                self.input = String::new();
                let ghost mid = self@;
                assert(mid == AppView { mode, input: seq![], ..before });
                self.update_suggestions(apps);
                proof {
                    let all = view_apps(apps@);
                    let calc = choose|calc: Option<(u64, Seq<char>)>|
                        answer_fits(mid.input, calc) && self@ == #[trigger] refresh(mid, all, calc);
                    assert(self@ == switch_mode(before, mode, all, calc));
                }
                true
            },
            None => false,
        }
    }

    /// Recomputes the suggestions for the current mode and input against `apps`, the installed
    /// applications, and selects the first; when the mode gives none for an input that holds
    /// something besides blanks, the calculator is asked and its finite answer, if any, is the one
    /// suggestion. The result is `refresh` for the calculator's answer; where that answer depends
    /// on the text alone (`meval_exact`), it is that answer.
    pub fn update_suggestions(&mut self, apps: &Vec<Application>)
        ensures
            refreshed(old(self)@, final(self)@, view_apps(apps@)),
            meval_exact(old(self).input@) matches Some(b) ==> final(self)@ == refresh(
                old(self)@,
                view_apps(apps@),
                Some((b, f64_text(b))),
            ),
    {
        let ghost before = self@;
        let ghost all = view_apps(apps@);
        self.fill_mode_suggestions(apps);
        if self.asks_calculator() {
            let result = evaluate(self.input.as_str());
            let ghost answer = result.deep_view();
            self.add_calculation(result);
            assert(self@ =~= refresh(before, all, answer));
            assert(answer_fits(before.input, answer));
        } else {
            let ghost answer = fitting_answer(before.input);
            assert(self@ =~= refresh(before, all, answer));
            assert(answer_fits(before.input, answer));
        }
    }

    /// Recomputes the suggestions as `update_suggestions` does, with `calc` as the calculator's
    /// answer for the current input (its bits and text, or `None` when it rejected the input).
    pub fn refresh_with(&mut self, apps: &Vec<Application>, calc: Option<(u64, String)>)
        ensures
            final(self)@ == refresh(old(self)@, view_apps(apps@), calc.deep_view()),
    {
        let ghost before = self@;
        self.fill_mode_suggestions(apps);
        if self.asks_calculator() {
            self.add_calculation(calc);
        }
        assert(self@ =~= refresh(before, view_apps(apps@), calc.deep_view()));
    }

    /// Whether the calculator is asked: the list is empty and the input holds something besides
    /// blanks.
    fn asks_calculator(&self) -> (r: bool)
        ensures
            r == (self.suggestions@.len() == 0 && self.input@.len() > 0 && !is_blank(self.input@)),
    {
        self.suggestions.len() == 0 && !self.input.as_str().is_empty() && !is_blank_str(
            self.input.as_str(),
        )
    }

    /// Appends the calculator's suggestion for `calc`, if it has one.
    fn add_calculation(&mut self, calc: Option<(u64, String)>)
        ensures
            final(self)@ == (AppView {
                suggestions: old(self)@.suggestions + match calc_suggestion_of(calc.deep_view()) {
                    Some(x) => seq![x],
                    None => Seq::<SuggestionView>::empty(),
                },
                ..old(self)@
            }),
    {
        match calc_suggestion(calc) {
            Some(x) => push_suggestion(&mut self.suggestions, x),
            None => {
                assert(self@.suggestions =~= self@.suggestions + Seq::<SuggestionView>::empty());
            },
        }
    }

    fn fill_mode_suggestions(&mut self, apps: &Vec<Application>)
        ensures
            final(self)@ == (AppView {
                suggestions: mode_suggestions(old(self).current_mode, old(self).input@, view_apps(apps@)),
                selected: 0,
                ..old(self)@
            }),
    {
        self.suggestions = Vec::new();
        self.selected_index = 0;
        assert(view_suggestions(self.suggestions@) =~= Seq::<SuggestionView>::empty());
        match self.current_mode {
            AppMode::AppLauncher => self.update_app_suggestions(apps),
            AppMode::FileSearch => self.update_file_suggestions(),
            AppMode::ShellExecution => self.update_shell_suggestions(),
            AppMode::ClipboardHistory => self.update_clipboard_suggestions(),
        }
        assert(self@.suggestions =~= mode_suggestions(
            old(self).current_mode,
            old(self).input@,
            view_apps(apps@),
        ));
    }

    fn update_app_suggestions(&mut self, apps: &Vec<Application>)
        ensures
            final(self)@ == (AppView {
                suggestions: old(self)@.suggestions + mode_suggestions(
                    AppMode::AppLauncher,
                    old(self).input@,
                    view_apps(apps@),
                ),
                ..old(self)@
            }),
    {
        let ghost old_list = self@.suggestions;
        if self.input.as_str().is_empty() {
            assert(self@.suggestions =~= old_list + Seq::<SuggestionView>::empty());
            return;
        }
        let ghost all = view_apps(apps@);
        let needle = chars_of(lower(self.input.as_str()).as_str());
        let mut i: usize = 0;
        assert(old_list + matching_apps(all.take(0), needle@) =~= old_list);
        while i < apps.len()
            invariant
                i <= apps@.len(),
                all == view_apps(apps@),
                needle@ == lowercase(self.input@),
                self.input@ == old(self).input@,
                self.selected_index == old(self).selected_index,
                self.current_mode == old(self).current_mode,
                old_list == old(self)@.suggestions,
                view_suggestions(self.suggestions@) == old_list + matching_apps(
                    all.take(i as int),
                    needle@,
                ),
            decreases apps.len() - i,
        {
            let a = &apps[i];
            let hay = chars_of(lower(a.name.as_str()).as_str());
            assert(all.take(i + 1).drop_last() =~= all.take(i as int));
            assert(all.take(i + 1).last() == a@);
            if contains_chars(&hay, &needle) {
                push_suggestion(&mut self.suggestions, Suggestion::App(a.copy()));
                assert(old_list + matching_apps(all.take(i + 1), needle@) =~= (old_list
                    + matching_apps(all.take(i as int), needle@)).push(SuggestionView::App(a@)));
            }
            i = i + 1;
        }
        assert(all.take(apps.len() as int) =~= all);
    }

    fn update_file_suggestions(&mut self)
        ensures
            final(self)@ == (AppView {
                suggestions: old(self)@.suggestions + mode_suggestions(
                    AppMode::FileSearch,
                    old(self).input@,
                    seq![],
                ),
                ..old(self)@
            }),
    {
        if self.input.as_str().is_empty() {
            assert(self@.suggestions =~= self@.suggestions + Seq::<SuggestionView>::empty());
            return;
        }
        let text = String::from_str("Search file: ").concat(self.input.as_str());
        push_suggestion(&mut self.suggestions, Suggestion::File(text));
        assert(self@.suggestions =~= old(self)@.suggestions + mode_suggestions(
            AppMode::FileSearch,
            self.input@,
            seq![],
        ));
    }

    fn update_shell_suggestions(&mut self)
        ensures
            final(self)@ == (AppView {
                suggestions: old(self)@.suggestions + mode_suggestions(
                    AppMode::ShellExecution,
                    old(self).input@,
                    seq![],
                ),
                ..old(self)@
            }),
    {
        if self.input.as_str().is_empty() {
            assert(self@.suggestions =~= self@.suggestions + Seq::<SuggestionView>::empty());
            return;
        }
        let text = String::from_str("Run: ").concat(self.input.as_str());
        push_suggestion(&mut self.suggestions, Suggestion::Shell(text));
        assert(self@.suggestions =~= old(self)@.suggestions + mode_suggestions(
            AppMode::ShellExecution,
            self.input@,
            seq![],
        ));
    }

    fn update_clipboard_suggestions(&mut self)
        ensures
            final(self)@ == (AppView {
                suggestions: old(self)@.suggestions + mode_suggestions(
                    AppMode::ClipboardHistory,
                    old(self).input@,
                    seq![],
                ),
                ..old(self)@
            }),
    {
        push_suggestion(
            &mut self.suggestions,
            Suggestion::Clipboard(String::from_str("Last copied text...")),
        );
        assert(self@.suggestions =~= old(self)@.suggestions + mode_suggestions(
            AppMode::ClipboardHistory,
            self.input@,
            seq![],
        ));
    }

    /// Handles one event of the event loop: events other than presses are ignored; a mode
    /// shortcut switches mode; escape, and `q` pressed without modifiers, quit; enter on a selected application launches it (enter
    /// on anything else does nothing); any other key goes to `on_key`.
    pub fn handle_event(&mut self, event: KeyEvent, shortcuts: &Shortcut, apps: &Vec<Application>) -> (r: RunAction)
        ensures
            event_stepped(old(self)@, final(self)@, r@, event, *shortcuts, view_apps(apps@)),
    {
        let ghost before = self@;
        let ghost all = view_apps(apps@);
        let ghost unchanged = fitting_answer(before.input);
        if event.kind != KeyEventKind::Press {
            assert((self@, RunActionView::Continue) == event_step(before, event, *shortcuts, all, unchanged));
            return RunAction::Continue;
        }
        if self.change_mode(event, shortcuts, apps) {
            proof {
                let m = shortcut_mode(event, *shortcuts)->0;
                let calc = choose|calc: Option<(u64, Seq<char>)>|
                    answer_fits(self@.input, calc) && self@ == #[trigger] switch_mode(before, m, all, calc);
                assert((self@, RunActionView::Continue) == event_step(before, event, *shortcuts, all, calc));
            }
            return RunAction::Continue;
        }
        let m = event.modifiers;
        let plain = !m.shift && !m.control && !m.alt && !m.super_key && !m.hyper && !m.meta;
        match event.code {
            KeyCode::Esc => {
                assert((self@, RunActionView::Quit) == event_step(before, event, *shortcuts, all, unchanged));
                RunAction::Quit
            },
            KeyCode::Char('q') if plain => {
                assert((self@, RunActionView::Quit) == event_step(before, event, *shortcuts, all, unchanged));
                RunAction::Quit
            },
            KeyCode::Enter => {
                if self.selected_index < self.suggestions.len() {
                    match &self.suggestions[self.selected_index] {
                        Suggestion::App(a) => {
                            let r = RunAction::Launch(a.path.clone());
                            assert((self@, r@) == event_step(before, event, *shortcuts, all, unchanged));
                            r
                        },
                        _ => {
                            assert((self@, RunActionView::Continue) == event_step(before, event, *shortcuts, all, unchanged));
                            RunAction::Continue
                        },
                    }
                } else {
                    assert((self@, RunActionView::Continue) == event_step(before, event, *shortcuts, all, unchanged));
                    RunAction::Continue
                }
            },
            _ => {
                self.on_key(event.code, apps);
                proof {
                    let calc = choose|calc: Option<(u64, Seq<char>)>|
                        answer_fits(self@.input, calc) && self@ == #[trigger] key_step(before, event.code, all, calc);
                    assert((self@, RunActionView::Continue) == event_step(before, event, *shortcuts, all, calc));
                }
                RunAction::Continue
            },
        }
    }
}

// ----- Properties -----

/// Typing a character and then backspace leaves the input as it was, with its suggestions
/// computed afresh and the first selected.
pub proof fn lemma_backspace_undoes_char(
    s: AppView,
    c: char,
    apps: Seq<ApplicationView>,
    calc1: Option<(u64, Seq<char>)>,
    calc2: Option<(u64, Seq<char>)>,
)
    ensures
        key_step(key_step(s, KeyCode::Char(c), apps, calc1), KeyCode::Backspace, apps, calc2)
            == refresh(s, apps, calc2),
{
    assert(s.input.push(c).drop_last() =~= s.input);
}

/// Every key keeps the selection on a suggestion (or on the first place of an empty list).
pub proof fn lemma_key_keeps_selection_valid(
    s: AppView,
    key: KeyCode,
    apps: Seq<ApplicationView>,
    calc: Option<(u64, Seq<char>)>,
)
    requires
        selection_valid(s),
    ensures
        selection_valid(key_step(s, key, apps, calc)),
{
}

/// Every event keeps the selection on a suggestion (or on the first place of an empty list).
pub proof fn lemma_event_keeps_selection_valid(
    s: AppView,
    event: KeyEvent,
    shortcuts: Shortcut,
    apps: Seq<ApplicationView>,
    calc: Option<(u64, Seq<char>)>,
)
    requires
        selection_valid(s),
    ensures
        selection_valid(event_step(s, event, shortcuts, apps, calc).0),
{
    lemma_key_keeps_selection_valid(s, event.code, apps, calc);
}

/// Moving the selection (up, down) and keys without a meaning change neither the input, nor the
/// suggestions, nor the mode.
pub proof fn lemma_navigation_keeps_text(
    s: AppView,
    key: KeyCode,
    apps: Seq<ApplicationView>,
    calc: Option<(u64, Seq<char>)>,
)
    requires
        !(key is Char),
        !(key is Backspace),
    ensures
        key_step(s, key, apps, calc).input == s.input,
        key_step(s, key, apps, calc).suggestions == s.suggestions,
        key_step(s, key, apps, calc).mode == s.mode,
{
}

/// Down then up returns to the same selection when down moved it.
pub proof fn lemma_down_then_up(
    s: AppView,
    apps: Seq<ApplicationView>,
    calc1: Option<(u64, Seq<char>)>,
    calc2: Option<(u64, Seq<char>)>,
)
    requires
        0 <= s.selected < s.suggestions.len() - 1,
    ensures
        key_step(key_step(s, KeyCode::Down, apps, calc1), KeyCode::Up, apps, calc2) == s,
{
}

/// Up never moves above the first suggestion, down never below the last.
pub proof fn lemma_selection_bounds(
    s: AppView,
    apps: Seq<ApplicationView>,
    calc: Option<(u64, Seq<char>)>,
)
    requires
        selection_valid(s),
    ensures
        key_step(s, KeyCode::Up, apps, calc).selected >= 0,
        s.suggestions.len() > 0 ==> key_step(s, KeyCode::Down, apps, calc).selected
            < s.suggestions.len(),
        s.selected == 0 ==> key_step(s, KeyCode::Up, apps, calc) == s,
        s.selected == s.suggestions.len() - 1 ==> key_step(s, KeyCode::Down, apps, calc) == s,
{
}

/// Switching mode leaves an empty input, no suggestions but the clipboard's one in clipboard
/// mode, and the first place selected.
pub proof fn lemma_switch_clears(
    s: AppView,
    mode: AppMode,
    apps: Seq<ApplicationView>,
    calc: Option<(u64, Seq<char>)>,
)
    ensures
        switch_mode(s, mode, apps, calc).input == Seq::<char>::empty(),
        switch_mode(s, mode, apps, calc).mode == mode,
        switch_mode(s, mode, apps, calc).selected == 0,
        switch_mode(s, mode, apps, calc).suggestions == (if mode == AppMode::ClipboardHistory {
            seq![SuggestionView::Clipboard(clipboard_text())]
        } else {
            Seq::<SuggestionView>::empty()
        }),
{
}

/// Clipboard mode gives the one clipboard suggestion whatever was typed.
pub proof fn lemma_clipboard_ignores_input(
    input: Seq<char>,
    apps: Seq<ApplicationView>,
    calc: Option<(u64, Seq<char>)>,
)
    ensures
        expected_suggestions(AppMode::ClipboardHistory, input, apps, calc) == seq![
            SuggestionView::Clipboard(clipboard_text()),
        ],
{
}

/// File and shell modes turn any non-empty input into their one suggestion; the calculator is
/// not asked.
pub proof fn lemma_file_and_shell_echo_input(
    input: Seq<char>,
    apps: Seq<ApplicationView>,
    calc: Option<(u64, Seq<char>)>,
)
    requires
        input.len() > 0,
    ensures
        expected_suggestions(AppMode::FileSearch, input, apps, calc) == seq![
            SuggestionView::File("Search file: "@ + input),
        ],
        expected_suggestions(AppMode::ShellExecution, input, apps, calc) == seq![
            SuggestionView::Shell("Run: "@ + input),
        ],
{
}

/// An empty input gives no suggestion outside clipboard mode.
pub proof fn lemma_empty_input_no_suggestions(
    mode: AppMode,
    apps: Seq<ApplicationView>,
    calc: Option<(u64, Seq<char>)>,
)
    requires
        mode != AppMode::ClipboardHistory,
    ensures
        expected_suggestions(mode, Seq::<char>::empty(), apps, calc)
            == Seq::<SuggestionView>::empty(),
{
}

/// Whatever the calculator answers, a refresh gives the mode's own suggestions when there are
/// any or nothing was typed, and otherwise at most one suggestion, a calculation.
pub proof fn lemma_refresh_whatever_the_calculator_says(
    s: AppView,
    apps: Seq<ApplicationView>,
    calc: Option<(u64, Seq<char>)>,
)
    ensures
        refresh(s, apps, calc).input == s.input,
        refresh(s, apps, calc).mode == s.mode,
        refresh(s, apps, calc).selected == 0,
        mode_suggestions(s.mode, s.input, apps).len() > 0 || s.input.len() == 0 ==> refresh(
            s,
            apps,
            calc,
        ).suggestions == mode_suggestions(s.mode, s.input, apps),
        !(mode_suggestions(s.mode, s.input, apps).len() > 0 || s.input.len() == 0) ==> {
            &&& refresh(s, apps, calc).suggestions.len() <= 1
            &&& forall|i: int|
                0 <= i < refresh(s, apps, calc).suggestions.len() ==> #[trigger] refresh(
                    s,
                    apps,
                    calc,
                ).suggestions[i] is Calc
        },
{
}

/// Every application suggestion is one of the installed applications, and its lower-cased name
/// contains the lower-cased input.
pub proof fn lemma_app_suggestions_sound(apps: Seq<ApplicationView>, needle: Seq<char>, k: int)
    requires
        0 <= k < matching_apps(apps, needle).len(),
    ensures
        matching_apps(apps, needle)[k] is App,
        apps.contains(matching_apps(apps, needle)[k]->App_0),
        seq_contains(lowercase(matching_apps(apps, needle)[k]->App_0.name), needle),
    decreases apps.len(),
{
    let rest = matching_apps(apps.drop_last(), needle);
    if k < rest.len() {
        lemma_app_suggestions_sound(apps.drop_last(), needle, k);
        let a = rest[k]->App_0;
        let j = choose|j: int| 0 <= j < apps.drop_last().len() && apps.drop_last()[j] == a;
        assert(apps[j] == a);
    } else {
        assert(apps[apps.len() - 1] == apps.last());
    }
}

/// Every installed application whose lower-cased name contains the lower-cased input is
/// suggested.
pub proof fn lemma_app_suggestions_complete(apps: Seq<ApplicationView>, needle: Seq<char>, i: int)
    requires
        0 <= i < apps.len(),
        seq_contains(lowercase(apps[i].name), needle),
    ensures
        matching_apps(apps, needle).contains(SuggestionView::App(apps[i])),
    decreases apps.len(),
{
    let rest = matching_apps(apps.drop_last(), needle);
    if i == apps.len() - 1 {
        let r = rest.push(SuggestionView::App(apps.last()));
        assert(r[r.len() - 1] == SuggestionView::App(apps[i]));
    } else {
        lemma_app_suggestions_complete(apps.drop_last(), needle, i);
        let k = choose|k: int| 0 <= k < rest.len() && rest[k] == SuggestionView::App(apps[i]);
        if seq_contains(lowercase(apps.last().name), needle) {
            let r = rest.push(SuggestionView::App(apps.last()));
            assert(r[k] == rest[k]);
        }
    }
}

/// Only key presses act: repeats and releases change nothing and keep the loop running.
pub proof fn lemma_only_presses_act(
    s: AppView,
    event: KeyEvent,
    shortcuts: Shortcut,
    apps: Seq<ApplicationView>,
    calc: Option<(u64, Seq<char>)>,
)
    requires
        event.kind != KeyEventKind::Press,
    ensures
        event_step(s, event, shortcuts, apps, calc) == (s, RunActionView::Continue),
{
}

/// A key that is not a character is never a mode shortcut.
pub proof fn lemma_shortcut_needs_char(event: KeyEvent, shortcuts: Shortcut)
    requires
        !(event.code is Char),
    ensures
        shortcut_mode(event, shortcuts) is None,
{
}

/// Escape always quits, leaving the state as it is.
pub proof fn lemma_escape_quits(
    s: AppView,
    event: KeyEvent,
    shortcuts: Shortcut,
    apps: Seq<ApplicationView>,
    calc: Option<(u64, Seq<char>)>,
)
    requires
        event.kind == KeyEventKind::Press,
        event.code == KeyCode::Esc,
    ensures
        event_step(s, event, shortcuts, apps, calc) == (s, RunActionView::Quit),
{
    lemma_shortcut_needs_char(event, shortcuts);
}

/// A key held without modifiers is never a mode shortcut.
pub proof fn lemma_shortcut_needs_modifier(event: KeyEvent, shortcuts: Shortcut)
    requires
        no_modifiers(event),
    ensures
        shortcut_mode(event, shortcuts) is None,
{
}

/// `q` pressed without modifiers quits, leaving the state as it is.
pub proof fn lemma_plain_q_quits(
    s: AppView,
    event: KeyEvent,
    shortcuts: Shortcut,
    apps: Seq<ApplicationView>,
    calc: Option<(u64, Seq<char>)>,
)
    requires
        event.kind == KeyEventKind::Press,
        event.code == KeyCode::Char('q'),
        no_modifiers(event),
    ensures
        event_step(s, event, shortcuts, apps, calc) == (s, RunActionView::Quit),
{
    lemma_shortcut_needs_modifier(event, shortcuts);
}

/// A refresh depends on the input and the mode alone: the old suggestions and selection never
/// show through.
pub proof fn lemma_refresh_forgets_old(
    a: AppView,
    b: AppView,
    apps: Seq<ApplicationView>,
    calc: Option<(u64, Seq<char>)>,
)
    requires
        a.input == b.input,
        a.mode == b.mode,
    ensures
        refresh(a, apps, calc) == refresh(b, apps, calc),
{
}

/// Refreshing twice with the same answer of the calculator is refreshing once.
pub proof fn lemma_refresh_idempotent(
    s: AppView,
    apps: Seq<ApplicationView>,
    calc: Option<(u64, Seq<char>)>,
)
    ensures
        refresh(refresh(s, apps, calc), apps, calc) == refresh(s, apps, calc),
{
}

/// After `update_suggestions`, when the calculator had to be asked: an expression that meval
/// rejects leaves no suggestion, and one that it takes leaves at most the one calculation.
pub proof fn lemma_calculator_answer(old: AppView, new: AppView, apps: Seq<ApplicationView>)
    requires
        refreshed(old, new, apps),
        calculator_asked(old.mode, old.input, apps),
    ensures
        !meval_accepts(old.input) ==> new.suggestions.len() == 0,
        meval_exact(old.input) matches Some(b) ==> new.suggestions == match calc_suggestion_of(
            Some((b, f64_text(b))),
        ) {
            Some(x) => seq![x],
            None => Seq::<SuggestionView>::empty(),
        },
        new.suggestions.len() <= 1,
        new.suggestions.len() == 1 ==> new.suggestions[0] is Calc,
{
}

/// A blank input in application mode that names no application gets no suggestion: the
/// calculator is not asked.
pub proof fn lemma_blank_input_not_calculated(
    input: Seq<char>,
    apps: Seq<ApplicationView>,
    calc: Option<(u64, Seq<char>)>,
)
    requires
        is_blank(input),
        matching_apps(apps, lowercase(input)).len() == 0,
    ensures
        expected_suggestions(AppMode::AppLauncher, input, apps, calc) == Seq::<SuggestionView>::empty(),
{
}

/// Enter on a selected application launches that application's path, leaving the state as it
/// is.
pub proof fn lemma_enter_launches_selected_app(
    s: AppView,
    event: KeyEvent,
    shortcuts: Shortcut,
    apps: Seq<ApplicationView>,
    calc: Option<(u64, Seq<char>)>,
)
    requires
        event.kind == KeyEventKind::Press,
        event.code == KeyCode::Enter,
        0 <= s.selected < s.suggestions.len(),
        s.suggestions[s.selected] is App,
    ensures
        event_step(s, event, shortcuts, apps, calc) == (
            s,
            RunActionView::Launch(s.suggestions[s.selected]->App_0.path),
        ),
{
    lemma_shortcut_needs_char(event, shortcuts);
}

/// Whether an event is a shortcut does not depend on the ASCII case of its character.
pub proof fn lemma_shortcut_ignores_ascii_case(
    e1: KeyEvent,
    e2: KeyEvent,
    c1: char,
    c2: char,
    shortcut: Seq<char>,
)
    requires
        e1.modifiers == e2.modifiers,
        e1.code == KeyCode::Char(c1),
        e2.code == KeyCode::Char(c2),
        crate::text::ascii_lower(c1) == crate::text::ascii_lower(c2),
    ensures
        event_matches(e1, shortcut) == event_matches(e2, shortcut),
{
}

/// With the default bindings, Control with `a`, `f`, `c` or `p` (in either ASCII case)
/// switches to the application, file, shell or clipboard mode, and Control with any other
/// character is no shortcut.
pub proof fn lemma_default_shortcuts(event: KeyEvent, shortcuts: Shortcut, c: char)
    requires
        shortcuts.is_default(),
        event.modifiers.control,
        event.code == KeyCode::Char(c),
    ensures
        ascii_lower(c) == 'a' ==> shortcut_mode(event, shortcuts) == Some(AppMode::AppLauncher),
        ascii_lower(c) == 'f' ==> shortcut_mode(event, shortcuts) == Some(AppMode::FileSearch),
        ascii_lower(c) == 'c' ==> shortcut_mode(event, shortcuts) == Some(
            AppMode::ShellExecution,
        ),
        ascii_lower(c) == 'p' ==> shortcut_mode(event, shortcuts) == Some(
            AppMode::ClipboardHistory,
        ),
        ascii_lower(c) != 'a' && ascii_lower(c) != 'f' && ascii_lower(c) != 'c' && ascii_lower(c)
            != 'p' ==> shortcut_mode(event, shortcuts) is None,
{
    reveal_strlit("ctrl+a");
    reveal_strlit("ctrl+f");
    reveal_strlit("ctrl+c");
    reveal_strlit("ctrl+p");
    assert(shortcuts.apps@ =~= seq!['c', 't', 'r', 'l', '+', 'a']);
    assert(shortcuts.files@ =~= seq!['c', 't', 'r', 'l', '+', 'f']);
    assert(shortcuts.shell@ =~= seq!['c', 't', 'r', 'l', '+', 'c']);
    assert(shortcuts.clipboard@ =~= seq!['c', 't', 'r', 'l', '+', 'p']);
    crate::keys::lemma_ctrl_letter('a');
    crate::keys::lemma_ctrl_letter('f');
    crate::keys::lemma_ctrl_letter('c');
    crate::keys::lemma_ctrl_letter('p');
}

/// Two updates of states with the same input and mode agree, wherever the calculator's answer
/// depends on the text alone: when it is not asked, when meval rejects the input, or when the
/// input's value is exact (`meval_exact`).
pub proof fn lemma_updates_agree(
    a: AppView,
    b: AppView,
    na: AppView,
    nb: AppView,
    apps: Seq<ApplicationView>,
)
    requires
        a.input == b.input,
        a.mode == b.mode,
        refreshed(a, na, apps),
        refreshed(b, nb, apps),
        !calculator_asked(a.mode, a.input, apps) || meval_exact(a.input) is Some
            || !meval_accepts(a.input),
    ensures
        na == nb,
{
    let ca = choose|c: Option<(u64, Seq<char>)>|
        answer_fits(a.input, c) && na == #[trigger] refresh(a, apps, c);
    let cb = choose|c: Option<(u64, Seq<char>)>|
        answer_fits(b.input, c) && nb == #[trigger] refresh(b, apps, c);
    if calculator_asked(a.mode, a.input, apps) {
        assert(ca == cb);
    }
    assert(refresh(a, apps, ca) == refresh(b, apps, cb));
}

/// The calculator's answer is shown exactly when its value is finite, of either sign: a double
/// is finite when its 11-bit exponent field (bits 52 to 62) is not all ones, and flipping the sign
/// bit never changes whether it is shown.
pub proof fn lemma_calc_shown_when_finite(b: u64, t: Seq<char>)
    ensures
        (b >> 52u64) & 0x7ffu64 != 0x7ffu64 ==> calc_suggestion_of(Some((b, t))) == Some(
            SuggestionView::Calc(t),
        ),
        (b >> 52u64) & 0x7ffu64 == 0x7ffu64 ==> calc_suggestion_of(Some((b, t))) is None,
        calc_suggestion_of(Some((b, t))) is Some <==> calc_suggestion_of(
            Some((b ^ 0x8000_0000_0000_0000u64, t)),
        ) is Some,
        b < 0x7ff0_0000_0000_0000u64 ==> calc_suggestion_of(Some((b, t))) is Some
            && calc_suggestion_of(Some((b | 0x8000_0000_0000_0000u64, t))) is Some,
        calc_suggestion_of(None) is None,
{
    assert(((b ^ 0x8000_0000_0000_0000u64) >> 52u64) & 0x7ffu64 == (b >> 52u64) & 0x7ffu64)
        by (bit_vector);
    assert(b < 0x7ff0_0000_0000_0000u64 ==> (b >> 52u64) & 0x7ffu64 != 0x7ffu64)
        by (bit_vector);
    assert(b < 0x7ff0_0000_0000_0000u64 ==> ((b | 0x8000_0000_0000_0000u64) >> 52u64) & 0x7ffu64
        != 0x7ffu64) by (bit_vector);
}

} // verus!
