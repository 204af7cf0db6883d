//! The fixed Command+Space listener: it opens the launcher in Ghostty whenever either Command key
//! and Space are held together.

use vstd::prelude::*;
use crate::hotkey::{view_args, DaemonKey, PressedKeys, TerminalCommand};

verus! {

/// Either Command key and Space are held.
pub open spec fn cmd_space_held(held: Set<DaemonKey>) -> bool {
    (held.contains(DaemonKey::MetaLeft) || held.contains(DaemonKey::MetaRight)) && held.contains(
        DaemonKey::Space,
    )
}

/// Whether either Command key and Space are held.
pub fn check_hotkey(pressed: &PressedKeys) -> (r: bool)
    ensures
        r == cmd_space_held(pressed.held()),
{
    let cmd = pressed.contains(DaemonKey::MetaLeft) || pressed.contains(DaemonKey::MetaRight);
    let space = pressed.contains(DaemonKey::Space);
    cmd && space
}

/// The command that opens a new Ghostty instance running `command_path`.
pub fn open_in_ghostty(command_path: &str) -> (r: TerminalCommand)
    ensures
        r.program@ == "open"@,
        view_args(r.args@) == seq!["-a"@, "ghostty"@, "-n"@, "--args"@, "-e"@, command_path@],
{
    let mut args: Vec<String> = Vec::new();
    args.push(String::from_str("-a"));
    args.push(String::from_str("ghostty"));
    args.push(String::from_str("-n"));
    args.push(String::from_str("--args"));
    args.push(String::from_str("-e"));
    args.push(String::from_str(command_path));
    assert(view_args(args@) =~= seq!["-a"@, "ghostty"@, "-n"@, "--args"@, "-e"@, command_path@]);
    TerminalCommand { program: String::from_str("open"), args }
}

/// Either Command key serves: with Space held, holding the left or the right Command key fires;
/// without Space, or without both Command keys, nothing fires.
pub proof fn lemma_either_command_key(held: Set<DaemonKey>)
    ensures
        cmd_space_held(held.insert(DaemonKey::MetaLeft).insert(DaemonKey::Space)),
        cmd_space_held(held.insert(DaemonKey::MetaRight).insert(DaemonKey::Space)),
        !cmd_space_held(held.remove(DaemonKey::Space)),
        !cmd_space_held(held.remove(DaemonKey::MetaLeft).remove(DaemonKey::MetaRight)),
        cmd_space_held(held) <==> held.contains(DaemonKey::Space) && (held.contains(
            DaemonKey::MetaLeft,
        ) || held.contains(DaemonKey::MetaRight)),
{
}

} // verus!
