use vstd::prelude::*;
use crate::text::str_equals;

verus! {

/// The editor's global commands.
#[derive(Clone, Copy, Debug, PartialEq, Eq, Structural)]
pub enum Command {
    CommandPalette,
    GoHome,
    NewProject,
    SaveProject,
}

/// The command bound to a keystroke, written as `ctrl-k` or `cmd-shift-h`:
/// each command has one binding with `cmd` and one with `ctrl`.
pub open spec fn command_of_keystroke(k: Seq<char>) -> Option<Command> {
    if k == "cmd-k"@ || k == "ctrl-k"@ {
        Some(Command::CommandPalette)
    } else if k == "cmd-shift-h"@ || k == "ctrl-shift-h"@ {
        Some(Command::GoHome)
    } else if k == "cmd-n"@ || k == "ctrl-n"@ {
        Some(Command::NewProject)
    } else if k == "cmd-s"@ || k == "ctrl-s"@ {
        Some(Command::SaveProject)
    } else {
        None
    }
}

pub fn command_for_keystroke(k: &str) -> (r: Option<Command>)
    ensures
        r == command_of_keystroke(k@),
{
    if str_equals(k, "cmd-k") || str_equals(k, "ctrl-k") {
        Some(Command::CommandPalette)
    } else if str_equals(k, "cmd-shift-h") || str_equals(k, "ctrl-shift-h") {
        Some(Command::GoHome)
    } else if str_equals(k, "cmd-n") || str_equals(k, "ctrl-n") {
        Some(Command::NewProject)
    } else if str_equals(k, "cmd-s") || str_equals(k, "ctrl-s") {
        Some(Command::SaveProject)
    } else {
        None
    }
}

/// The entries of the command palette, top to bottom, with the shortcut shown for each.
pub open spec fn palette_entries_text() -> Seq<(Seq<char>, Seq<char>)> {
    seq![
        ("Palette de commandes"@, "Ctrl+K"@),
        ("Accueil"@, "Ctrl+Shift+H"@),
        ("Nouveau projet"@, "Ctrl+N"@),
        ("Enregistrer"@, "Ctrl+S"@),
    ]
}

pub fn palette_entries() -> (r: Vec<(&'static str, &'static str)>)
    ensures
        r@.len() == palette_entries_text().len(),
        forall|i: int|
            0 <= i < r@.len() ==> (#[trigger] r@[i]).0@ == palette_entries_text()[i].0 && r@[i].1@
                == palette_entries_text()[i].1,
{
    let mut v: Vec<(&'static str, &'static str)> = Vec::new();
    v.push(("Palette de commandes", "Ctrl+K"));
    v.push(("Accueil", "Ctrl+Shift+H"));
    v.push(("Nouveau projet", "Ctrl+N"));
    v.push(("Enregistrer", "Ctrl+S"));
    v
}

} // verus!
