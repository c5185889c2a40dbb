//! How a candidate is laid out on the line that the finder shows.

use vstd::prelude::*;

verus! {

/// What stands between the fields of a candidate line: two spaces and a blank
/// braille pattern.
pub const DELIMITER: &'static str = "  \u{2800}";

/// The width to which the tags of a candidate are cut or filled.
pub const TAG_WIDTH: usize = 20;

/// The width to which the comment of a candidate is cut or filled.
pub const COMMENT_WIDTH: usize = 60;

/// `n` spaces.
pub open spec fn spaces(n: nat) -> Seq<char> {
    Seq::new(n, |i: int| ' ')
}

/// A text brought to a width: filled with spaces where it is shorter, and
/// where it is longer cut one before the width and closed by an ellipsis.
pub open spec fn limited(text: Seq<char>, width: nat) -> Seq<char> {
    if text.len() > width {
        text.take(
            if width == 0 {
                0
            } else {
                width - 1
            },
        ).push('\u{2026}')
    } else {
        text + spaces((width - text.len()) as nat)
    }
}

/// The line that offers a candidate: its tags and its comment brought to
/// their widths, its snippet, and then the three in full, with the delimiter
/// after each and a line feed at the end. The finder shows the first three
/// fields and hands all of them back.
pub open spec fn candidate_line(
    tags: Seq<char>,
    comment: Seq<char>,
    snippet: Seq<char>,
    tag_width: nat,
    comment_width: nat,
) -> Seq<char> {
    limited(tags, tag_width) + DELIMITER@ + limited(comment, comment_width) + DELIMITER@ + snippet
        + DELIMITER@ + tags + DELIMITER@ + comment + DELIMITER@ + snippet + DELIMITER@ + seq!['\n']
}

/// Brings a text to a width.
pub fn limit_str(text: &str, width: usize) -> (shown: String)
    ensures
        shown@ == limited(text@, width as nat),
{
    let length = text.unicode_len();
    let mut shown = String::new();
    if length > width {
        let keep: usize = if width == 0 {
            0
        } else {
            width - 1
        };
        let mut kept: usize = 0;
        for c in it: text.chars()
            invariant
                it.seq() == text@,
                keep < text@.len(),
                kept == (if it.index() < keep {
                    it.index()
                } else {
                    keep as int
                }),
                shown@ == text@.take(kept as int),
        {
            if kept < keep {
                shown.push(c);
                assert(text@.take(it.index() + 1) == text@.take(it.index()).push(c));
                kept += 1;
            }
        }
        shown.push('\u{2026}');
    } else {
        shown.append(text);
        let mut filled: usize = length;
        while filled < width
            invariant
                length <= filled <= width,
                length == text@.len(),
                shown@ == text@ + spaces((filled - length) as nat),
            decreases width - filled,
        {
            shown.push(' ');
            assert(spaces((filled + 1 - length) as nat) == spaces((filled - length) as nat).push(
                ' ',
            ));
            filled += 1;
        }
    }
    shown
}

/// Lays a candidate out on its line.
pub fn format_line(
    tags: &str,
    comment: &str,
    snippet: &str,
    tag_width: usize,
    comment_width: usize,
) -> (line: String)
    ensures
        line@ == candidate_line(
            tags@,
            comment@,
            snippet@,
            tag_width as nat,
            comment_width as nat,
        ),
{
    let mut line = limit_str(tags, tag_width);
    line.append(DELIMITER);
    let comment_shown = limit_str(comment, comment_width);
    line.append(comment_shown.as_str());
    line.append(DELIMITER);
    line.append(snippet);
    line.append(DELIMITER);
    line.append(tags);
    line.append(DELIMITER);
    line.append(comment);
    line.append(DELIMITER);
    line.append(snippet);
    line.append(DELIMITER);
    line.push('\n');
    line
}

} // verus!
