//! The candidates offered where no cheat sheet is installed yet.

use crate::display::{candidate_line, format_line, COMMENT_WIDTH, TAG_WIDTH};
use vstd::prelude::*;
use vstd::string::StrSliceExecFns;
use vstd::utf8::encode_utf8;

verus! {

/// The bytes of the line that offers one candidate.
pub open spec fn candidate_bytes(tag: Seq<char>, comment: Seq<char>, snippet: Seq<char>) -> Seq<
    u8,
> {
    encode_utf8(candidate_line(tag, comment, snippet, TAG_WIDTH as nat, COMMENT_WIDTH as nat))
}

/// The bytes of the three candidates of the welcome sheet.
pub open spec fn welcome_bytes() -> Seq<u8> {
    candidate_bytes(
        "cheatsheets"@,
        "Download default cheatsheets"@,
        "navi repo add denisidoro/cheats"@,
    ) + candidate_bytes("cheatsheets"@, "Browse for cheatsheet repos"@, "navi repo browse"@)
        + candidate_bytes("more info"@, "Read --help message"@, "navi --help"@)
}

/// Writes the line of one candidate behind what the finder's input holds.
pub fn add_msg(tag: &str, comment: &str, snippet: &str, stdin: &mut Vec<u8>)
    ensures
        final(stdin)@ == old(stdin)@ + candidate_bytes(tag@, comment@, snippet@),
{
    let line = format_line(tag, comment, snippet, TAG_WIDTH, COMMENT_WIDTH);
    let mut bytes = line.as_str().as_bytes_vec();
    stdin.append(&mut bytes);
}

/// Writes the candidates of the welcome sheet behind what the finder's input
/// holds: how to download the default cheat sheets, how to browse for others,
/// and where to read more.
pub fn cheatsheet(stdin: &mut Vec<u8>)
    ensures
        final(stdin)@ == old(stdin)@ + welcome_bytes(),
{
    add_msg(
        "cheatsheets",
        "Download default cheatsheets",
        "navi repo add denisidoro/cheats",
        stdin,
    );
    add_msg("cheatsheets", "Browse for cheatsheet repos", "navi repo browse", stdin);
    add_msg("more info", "Read --help message", "navi --help", stdin);
}

} // verus!
