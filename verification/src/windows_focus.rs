//! The window of the terminal.

use crate::strings;
use crate::text;
use vstd::prelude::*;

verus! {

/// Whether a terminal with this name, in small letters, is part of an editor.
pub fn is_editor_terminal(name: &str) -> (r: bool)
    ensures
        r == text::occurs(name@, "vscode"@),
{
    text::contains_text(name, "vscode")
}

/// Whether the window of the terminal should be brought to the front: not if it is the
/// integrated terminal of an editor, to avoid opening a new window. Takes the name of
/// the terminal, if it has one.
pub fn should_bring_to_front(term_program: &Option<String>) -> (r: bool)
    ensures
        r == (match term_program {
            Some(name) => !text::occurs(strings::lowercase(name@), "vscode"@),
            None => true,
        }),
        term_program matches Some(name) && vstd::utf8::is_ascii_chars(name@) ==> r
            == !text::occurs(strings::ascii_lowercase(term_program->0@), "vscode"@),
{
    match term_program {
        Some(name) => {
            let lower = strings::to_lowercase(name.as_str());
            !is_editor_terminal(lower.as_str())
        },
        None => true,
    }
}

/// Brings the console window to the foreground, on systems where it has no such window:
/// this does nothing.
pub fn bring_terminal_to_front() {
}

} // verus!
