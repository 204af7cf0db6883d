//! Key events as the launcher reads them, and shortcut strings such as `"ctrl+a"`.

use vstd::prelude::*;
use crate::text::{
    ascii_lower, chars_of, lower, lowercase, str_eq, to_ascii_lowercase,
};

verus! {

/// The key of a key event. Keys that the launcher gives no meaning to are `Other`.
#[derive(Debug, Clone, Copy, PartialEq, Eq, Structural)]
pub enum KeyCode {
    Char(char),
    Backspace,
    Enter,
    Esc,
    Up,
    Down,
    Other,
}

/// The modifier keys held during a key event.
#[derive(Debug, Clone, Copy, PartialEq, Eq, Structural)]
pub struct KeyModifiers {
    pub shift: bool,
    pub control: bool,
    pub alt: bool,
    pub super_key: bool,
    pub hyper: bool,
    pub meta: bool,
}

/// Whether a key was pressed, repeated or released.
#[derive(Debug, Clone, Copy, PartialEq, Eq, Structural)]
pub enum KeyEventKind {
    Press,
    Repeat,
    Release,
}

/// One key event.
#[derive(Debug, Clone, Copy, PartialEq, Eq, Structural)]
pub struct KeyEvent {
    pub code: KeyCode,
    pub modifiers: KeyModifiers,
    pub kind: KeyEventKind,
}

/// The modifier that a shortcut string can name.
#[derive(Debug, Clone, Copy, PartialEq, Eq, Structural)]
pub enum Modifier {
    Control,
    Alt,
    Shift,
}

impl KeyModifiers {
    /// No modifier held.
    pub fn none() -> (r: KeyModifiers)
        ensures
            !r.shift && !r.control && !r.alt && !r.super_key && !r.hyper && !r.meta,
    {
        KeyModifiers {
            shift: false,
            control: false,
            alt: false,
            super_key: false,
            hyper: false,
            meta: false,
        }
    }

    /// Whether the modifier `m` is among those held.
    pub open spec fn holds(self, m: Modifier) -> bool {
        match m {
            Modifier::Control => self.control,
            Modifier::Alt => self.alt,
            Modifier::Shift => self.shift,
        }
    }

    /// Whether the modifier `m` is among those held.
    pub fn contains(&self, m: Modifier) -> (r: bool)
        ensures
            r == self.holds(m),
    {
        match m {
            Modifier::Control => self.control,
            Modifier::Alt => self.alt,
            Modifier::Shift => self.shift,
        }
    }
}

/// The modifier that a lower-cased word names: `ctrl`, `alt` or `shift`.
pub open spec fn modifier_named(word: Seq<char>) -> Option<Modifier> {
    if word == "ctrl"@ {
        Some(Modifier::Control)
    } else if word == "alt"@ {
        Some(Modifier::Alt)
    } else if word == "shift"@ {
        Some(Modifier::Shift)
    } else {
        None
    }
}

/// `s` holds exactly one `+`, at `p`.
pub open spec fn only_plus_at(s: Seq<char>, p: int) -> bool {
    &&& 0 <= p < s.len()
    &&& s[p] == '+'
    &&& forall|i: int| 0 <= i < s.len() && i != p ==> s[i] != '+'
}

/// What a shortcut string means: it splits at `+` into exactly two parts; the first, lower-cased,
/// names a modifier; the second is one byte long (a single ASCII character), and the key is that
/// character lower-cased. Any other string means no shortcut.
pub open spec fn parse_shortcut(s: Seq<char>) -> Option<(Modifier, char)> {
    if exists|p: int| only_plus_at(s, p) {
        let p = choose|p: int| only_plus_at(s, p);
        let key = s.skip(p + 1);
        match modifier_named(lowercase(s.take(p))) {
            Some(m) => if key.len() == 1 && (key[0] as u32) < 128 {
                Some((m, ascii_lower(key[0])))
            } else {
                None
            },
            None => None,
        }
    } else {
        None
    }
}

/// The event matches the shortcut: the shortcut's modifier is held, and the event's key is a
/// character whose ASCII lower case is the shortcut's key.
pub open spec fn event_matches(event: KeyEvent, shortcut: Seq<char>) -> bool {
    match parse_shortcut(shortcut) {
        Some((m, k)) => event.modifiers.holds(m) && match event.code {
            KeyCode::Char(c) => ascii_lower(c) == k,
            _ => false,
        },
        None => false,
    }
}

fn modifier_of_word(word: &str) -> (r: Option<Modifier>)
    ensures
        r == modifier_named(word@),
{
    if str_eq(word, "ctrl") {
        Some(Modifier::Control)
    } else if str_eq(word, "alt") {
        Some(Modifier::Alt)
    } else if str_eq(word, "shift") {
        Some(Modifier::Shift)
    } else {
        None
    }
}

/// Reads a shortcut string such as `"ctrl+a"` into its modifier and key.
pub fn parse_shortcut_str(shortcut: &str) -> (r: Option<(Modifier, char)>)
    ensures
        r == parse_shortcut(shortcut@),
{
    let cs = chars_of(shortcut);
    let n = cs.len();
    let mut first: Option<usize> = None;
    let mut twice = false;
    let mut i: usize = 0;
    while i < n
        invariant
            n == cs@.len(),
            cs@ == shortcut@,
            i <= n,
            first is None ==> forall|j: int| 0 <= j < i ==> cs@[j] != '+',
            first is Some ==> ({
                let p = first->0 as int;
                &&& p < i
                &&& cs@[p] == '+'
                &&& forall|j: int| 0 <= j < p ==> cs@[j] != '+'
                &&& !twice ==> forall|j: int| p < j < i ==> cs@[j] != '+'
            }),
            twice ==> exists|a: int, b: int|
                0 <= a < n && 0 <= b < n && a != b && cs@[a] == '+' && cs@[b] == '+',
        decreases n - i,
    {
        if cs[i] == '+' {
            match first {
                None => {
                    first = Some(i);
                },
                Some(p) => {
                    assert(cs@[p as int] == '+' && cs@[i as int] == '+');
                    twice = true;
                },
            }
        }
        i = i + 1;
    }
    let ghost s = shortcut@;
    match first {
        None => {
            assert(!exists|p: int| only_plus_at(s, p));
            None
        },
        Some(p) => {
            if twice {
                assert(!exists|q: int| only_plus_at(s, q)) by {
                    let (a, b) = choose|a: int, b: int|
                        0 <= a < n && 0 <= b < n && a != b && cs@[a] == '+' && cs@[b] == '+';
                    assert forall|q: int| !only_plus_at(s, q) by {
                        if only_plus_at(s, q) {
                            assert(a == q && b == q);
                        }
                    }
                }
                return None;
            }
            assert(only_plus_at(s, p as int));
            assert forall|q: int| only_plus_at(s, q) implies q == p by {}
            let word = shortcut.substring_char(0, p);
            assert(word@ == s.take(p as int));
            let lowered = lower(word);
            let m = modifier_of_word(lowered.as_str());
            match m {
                None => None,
                Some(m) => {
                    if n - p - 1 == 1 {
                        let c = cs[p + 1];
                        assert(s.skip(p + 1)[0] == c);
                        if (c as u32) < 128 {
                            Some((m, to_ascii_lowercase(c)))
                        } else {
                            None
                        }
                    } else {
                        None
                    }
                },
            }
        },
    }
}

/// Whether the event is the shortcut that the string describes.
pub fn is_shortcut(event: KeyEvent, shortcut: &str) -> (r: bool)
    ensures
        r == event_matches(event, shortcut@),
{
    match parse_shortcut_str(shortcut) {
        None => false,
        Some((m, k)) => {
            let held = event.modifiers.contains(m);
            let normalized = match event.code {
                KeyCode::Char(c) => KeyCode::Char(to_ascii_lowercase(c)),
                other => other,
            };
            held && normalized == KeyCode::Char(k)
        },
    }
}

/// `ctrl+` followed by a lower-case ASCII letter means that letter with Control held.
pub proof fn lemma_ctrl_letter(k: char)
    requires
        'a' <= k <= 'z',
    ensures
        parse_shortcut(seq!['c', 't', 'r', 'l', '+', k]) == Some((Modifier::Control, k)),
{
    let s = seq!['c', 't', 'r', 'l', '+', k];
    assert(only_plus_at(s, 4));
    assert forall|q: int| only_plus_at(s, q) implies q == 4 by {
        if q != 4 {
            assert(s[4] != '+');
        }
    }
    let word = s.take(4);
    assert(word =~= seq!['c', 't', 'r', 'l']);
    assert(crate::text::all_ascii(word));
    assert(word.map_values(|c: char| ascii_lower(c)) =~= word);
    reveal_strlit("ctrl");
    assert(lowercase(word) == "ctrl"@);
    assert(s.skip(5) =~= seq![k]);
}

/// `alt+` followed by a lower-case ASCII letter means that letter with Alt held.
pub proof fn lemma_alt_letter(k: char)
    requires
        'a' <= k <= 'z',
    ensures
        parse_shortcut(seq!['a', 'l', 't', '+', k]) == Some((Modifier::Alt, k)),
{
    let s = seq!['a', 'l', 't', '+', k];
    assert(only_plus_at(s, 3));
    assert forall|q: int| only_plus_at(s, q) implies q == 3 by {
        if q != 3 {
            assert(s[3] != '+');
        }
    }
    let word = s.take(3);
    assert(word =~= seq!['a', 'l', 't']);
    assert(crate::text::all_ascii(word));
    assert(word.map_values(|c: char| ascii_lower(c)) =~= word);
    reveal_strlit("ctrl");
    reveal_strlit("alt");
    assert(lowercase(word) == "alt"@);
    assert(word != "ctrl"@);
    assert(s.skip(4) =~= seq![k]);
}

/// `shift+` followed by a lower-case ASCII letter means that letter with Shift held.
pub proof fn lemma_shift_letter(k: char)
    requires
        'a' <= k <= 'z',
    ensures
        parse_shortcut(seq!['s', 'h', 'i', 'f', 't', '+', k]) == Some((Modifier::Shift, k)),
{
    let s = seq!['s', 'h', 'i', 'f', 't', '+', k];
    assert(only_plus_at(s, 5));
    assert forall|q: int| only_plus_at(s, q) implies q == 5 by {
        if q != 5 {
            assert(s[5] != '+');
        }
    }
    let word = s.take(5);
    assert(word =~= seq!['s', 'h', 'i', 'f', 't']);
    assert(crate::text::all_ascii(word));
    assert(word.map_values(|c: char| ascii_lower(c)) =~= word);
    reveal_strlit("ctrl");
    reveal_strlit("alt");
    reveal_strlit("shift");
    assert(lowercase(word) == "shift"@);
    assert(word != "ctrl"@ && word != "alt"@);
    assert(s.skip(6) =~= seq![k]);
}

/// Each modifier a shortcut names is its own flag of the event: Control the control flag, Alt
/// the alt flag, Shift the shift flag.
pub proof fn lemma_modifier_flags(m: KeyModifiers)
    ensures
        m.holds(Modifier::Control) == m.control,
        m.holds(Modifier::Alt) == m.alt,
        m.holds(Modifier::Shift) == m.shift,
{
}

/// An event matches `ctrl+k`, `alt+k` or `shift+k` (for a lower-case ASCII letter `k`) exactly
/// when that modifier's flag is set and the event's key is `k` in either ASCII case; other
/// modifiers held do not matter.
pub proof fn lemma_letter_shortcut_matches(e: KeyEvent, k: char)
    requires
        'a' <= k <= 'z',
    ensures
        event_matches(e, seq!['c', 't', 'r', 'l', '+', k]) <==> e.modifiers.control && (
        e.code matches KeyCode::Char(c) && ascii_lower(c) == k),
        event_matches(e, seq!['a', 'l', 't', '+', k]) <==> e.modifiers.alt && (
        e.code matches KeyCode::Char(c) && ascii_lower(c) == k),
        event_matches(e, seq!['s', 'h', 'i', 'f', 't', '+', k]) <==> e.modifiers.shift && (
        e.code matches KeyCode::Char(c) && ascii_lower(c) == k),
{
    lemma_ctrl_letter(k);
    lemma_alt_letter(k);
    lemma_shift_letter(k);
}

} // verus!
