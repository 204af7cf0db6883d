//! What the launcher window shows: its title, its input line, its height and one row per
//! suggestion, and the numbers that place it on the screen. Drawing them is left to the caller.

use vstd::prelude::*;
use crate::app::{App, AppMode, SuggestionView, Suggestion};

verus! {

/// One row of the suggestion list.
#[derive(Debug, Clone, PartialEq, Eq)]
pub struct SuggestionRow {
    /// The icon followed by a space.
    pub icon: String,
    pub text: String,
    pub selected: bool,
}

/// The launcher window's content.
#[derive(Debug, Clone, PartialEq, Eq)]
pub struct LauncherView {
    pub title: String,
    pub prompt: String,
    pub input: String,
    /// Rows of the window: two borders, the input line and the suggestions shown.
    pub height: u16,
    pub rows: Vec<SuggestionRow>,
}

/// The constraints that centre the window: from the top, a band of `top_percent` percent, the
/// window of at least `min_height` rows, a band of at most `bottom_max` rows; across, bands of
/// `side_percent` percent on each side of the window's `width_percent` percent.
#[derive(Debug, Clone, Copy, PartialEq, Eq, Structural)]
pub struct CenteredLayout {
    pub top_percent: u16,
    pub min_height: u16,
    pub bottom_max: u16,
    pub side_percent: u16,
    pub width_percent: u16,
}

/// A row over character sequences.
#[verifier::ext_equal]
pub struct RowView {
    pub icon: Seq<char>,
    pub text: Seq<char>,
    pub selected: bool,
}

impl View for SuggestionRow {
    type V = RowView;

    open spec fn view(&self) -> RowView {
        RowView { icon: self.icon@, text: self.text@, selected: self.selected }
    }
}

/// The title of each mode.
pub open spec fn mode_title(mode: AppMode) -> Seq<char> {
    match mode {
        AppMode::AppLauncher => " Apps "@,
        AppMode::FileSearch => " Files "@,
        AppMode::ShellExecution => " Shell "@,
        AppMode::ClipboardHistory => " Clipboard "@,
    }
}

/// The icon of a suggestion: an application's own, else one per kind.
pub open spec fn suggestion_icon(s: SuggestionView) -> Seq<char> {
    match s {
        SuggestionView::App(a) => a.icon,
        SuggestionView::File(_) => "\u{f0214}"@,
        SuggestionView::Shell(_) => "\u{f489}"@,
        SuggestionView::Clipboard(_) => "\u{f162a}"@,
        SuggestionView::Calc(_) => "\u{f1ec}"@,
    }
}

/// The text of a suggestion: an application's name, else the suggestion's string.
pub open spec fn suggestion_text(s: SuggestionView) -> Seq<char> {
    match s {
        SuggestionView::App(a) => a.name,
        SuggestionView::File(t) => t,
        SuggestionView::Shell(t) => t,
        SuggestionView::Clipboard(t) => t,
        SuggestionView::Calc(t) => t,
    }
}

/// The row for a suggestion.
pub open spec fn row_of(s: SuggestionView, selected: bool) -> RowView {
    RowView { icon: suggestion_icon(s) + " "@, text: suggestion_text(s), selected }
}

/// How many suggestions the window makes room for: the count (taken modulo 2^16, as a cast to
/// `u16` does) up to the configured maximum.
pub open spec fn shown_count(count: int, max_shown: u16) -> int {
    let c = count % 65536;
    if c < max_shown {
        c
    } else {
        max_shown as int
    }
}

/// The prompt before the input.
pub open spec fn prompt_text() -> Seq<char> {
    "\u{276f} "@
}

fn title_of(mode: AppMode) -> (r: String)
    ensures
        r@ == mode_title(mode),
{
    match mode {
        AppMode::AppLauncher => String::from_str(" Apps "),
        AppMode::FileSearch => String::from_str(" Files "),
        AppMode::ShellExecution => String::from_str(" Shell "),
        AppMode::ClipboardHistory => String::from_str(" Clipboard "),
    }
}

/// The row for a suggestion.
pub fn suggestion_row(s: &Suggestion, selected: bool) -> (r: SuggestionRow)
    ensures
        r@ == row_of(s@, selected),
{
    let (icon, text) = match s {
        Suggestion::App(a) => (String::from_str(a.icon.as_str()), a.name.clone()),
        Suggestion::File(t) => (String::from_str("\u{f0214}"), t.clone()),
        Suggestion::Shell(t) => (String::from_str("\u{f489}"), t.clone()),
        Suggestion::Clipboard(t) => (String::from_str("\u{f162a}"), t.clone()),
        Suggestion::Calc(t) => (String::from_str("\u{f1ec}"), t.clone()),
    };
    SuggestionRow { icon: icon.concat(" "), text, selected }
}

/// The window's content for the launcher's state: the mode's title, the prompt and input, a
/// height of three rows plus the suggestions it makes room for (at most `max_shown`), and one
/// row per suggestion with the selected one marked.
pub fn launcher_view(app: &App, max_shown: u16) -> (r: LauncherView)
    requires
        shown_count(app.suggestions@.len() as int, max_shown) <= 65532,
    ensures
        r.title@ == mode_title(app.current_mode),
        r.prompt@ == prompt_text(),
        r.input@ == app.input@,
        r.height == 3 + shown_count(app.suggestions@.len() as int, max_shown),
        r.rows@.len() == app.suggestions@.len(),
        forall|i: int|
            0 <= i < r.rows@.len() ==> #[trigger] r.rows@[i]@ == row_of(
                app@.suggestions[i],
                i == app.selected_index,
            ),
{
    let n = app.suggestions.len();
    let count: u16 = if n > 65535 {
        (n % 65536) as u16
    } else {
        n as u16
    };
    let shown: u16 = if count < max_shown {
        count
    } else {
        max_shown
    };
    let mut rows: Vec<SuggestionRow> = Vec::new();
    let mut i: usize = 0;
    while i < n
        invariant
            n == app.suggestions@.len(),
            i <= n,
            rows@.len() == i,
            forall|j: int|
                0 <= j < i ==> #[trigger] rows@[j]@ == row_of(
                    app@.suggestions[j],
                    j == app.selected_index,
                ),
        decreases n - i,
    {
        let row = suggestion_row(&app.suggestions[i], i == app.selected_index);
        rows.push(row);
        i = i + 1;
    }
    LauncherView {
        title: title_of(app.current_mode),
        prompt: String::from_str("\u{276f} "),
        input: app.input.clone(),
        height: 3 + shown,
        rows,
    }
}

/// The constraints that centre a window `percent_x` percent wide and `height` rows high in an
/// area `area_height` rows high: 15 percent above it, and below it at most what is left after
/// the window and a tenth of the area (both subtractions stopping at zero); across, equal bands
/// of half the remaining percentage on each side.
pub fn centered_rect_constraints(percent_x: u16, height: u16, area_height: u16) -> (r:
    CenteredLayout)
    requires
        percent_x <= 100,
    ensures
        r.top_percent == 15,
        r.min_height == height,
        r.bottom_max == ({
            let rest = if area_height >= height {
                area_height - height
            } else {
                0
            };
            if rest >= area_height / 10 {
                rest - area_height / 10
            } else {
                0
            }
        }),
        r.side_percent == (100 - percent_x) / 2,
        r.width_percent == percent_x,
{
    let rest: u16 = if area_height >= height {
        area_height - height
    } else {
        0
    };
    let tenth: u16 = area_height / 10;
    let bottom: u16 = if rest >= tenth {
        rest - tenth
    } else {
        0
    };
    CenteredLayout {
        top_percent: 15,
        min_height: height,
        bottom_max: bottom,
        side_percent: (100 - percent_x) / 2,
        width_percent: percent_x,
    }
}

/// The window makes room for at most the configured number of suggestions, and for all of them
/// when there are no more than that (and fewer than 2^16).
pub proof fn lemma_shown_count_bounds(count: int, max_shown: u16)
    requires
        count >= 0,
    ensures
        0 <= shown_count(count, max_shown) <= max_shown,
        count < 65536 && count <= max_shown ==> shown_count(count, max_shown) == count,
{
}

} // verus!
