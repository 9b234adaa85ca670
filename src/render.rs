//! The text printed for one entry.

use colored::Colorize;
use vstd::prelude::*;
use vstd::string::*;
use crate::permissions::{parse_permissions, permission_text};

verus! {

/// The escape character that starts a terminal control sequence.
pub open spec fn escape() -> char {
    '\u{1b}'
}

/// `text` in the terminal's blue: the sequence that sets the foreground to
/// blue, the text, then the sequence that resets all attributes.
pub open spec fn blue_text(text: Seq<char>) -> Seq<char> {
    seq![escape(), '[', '3', '4', 'm'] + text + seq![escape(), '[', '0', 'm']
}

/// Relies on colored's `Colorize::blue` and its `Display`: when colouring is
/// enabled for the process the text comes wrapped in the blue and reset
/// sequences (the text is left as it is where it holds no escape character),
/// else it comes back unchanged.
#[verifier::external_body]
fn blue(text: &str) -> (r: String)
    ensures
        !text@.contains(escape()) ==> (r@ == text@ || r@ == blue_text(text@)),
{
    text.blue().to_string()
}

/// The name shown for an entry: a directory's name carries a trailing `/`
/// and, when `color` is set, the blue highlight.
pub fn entry_label(name: &str, is_dir: bool, color: bool) -> (r: String)
    ensures
        !is_dir ==> r@ == name@,
        is_dir ==> r@.len() > 0 && r@.last() == '/',
        is_dir && !color ==> r@ == name@ + seq!['/'],
        is_dir && color && !name@.contains(escape()) ==> (r@ == name@ + seq!['/'] || r@
            == blue_text(name@) + seq!['/']),
{
    proof {
        reveal_strlit("/");
    }
    if !is_dir {
        String::from_str(name)
    } else if color {
        blue(name).concat("/")
    } else {
        String::from_str(name).concat("/")
    }
}

/// The detailed line for an entry: permissions, modification time and label,
/// separated by single spaces and ended by a newline.
pub open spec fn detailed_text(mode: u32, clock: Seq<char>, label: Seq<char>) -> Seq<char> {
    permission_text(mode) + seq![' '] + clock + seq![' '] + label + seq!['\n']
}

/// The compact text for an entry: its label and two spaces.
pub open spec fn compact_text(label: Seq<char>) -> Seq<char> {
    label + seq![' ', ' ']
}

/// The text printed for one entry, in detailed or in compact form.
pub fn render_entry(label: &str, detailed: bool, mode: u32, clock: &str) -> (r: String)
    ensures
        detailed ==> r@ == detailed_text(mode, clock@, label@),
        !detailed ==> r@ == compact_text(label@),
{
    proof {
        reveal_strlit(" ");
        reveal_strlit("  ");
        reveal_strlit("\n");
    }
    if detailed {
        let r = parse_permissions(mode).concat(" ").concat(clock).concat(" ").concat(label).concat(
            "\n",
        );
        assert(r@ =~= detailed_text(mode, clock@, label@));
        r
    } else {
        let r = String::from_str(label).concat("  ");
        assert(r@ =~= compact_text(label@));
        r
    }
}

} // verus!
