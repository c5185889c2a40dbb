//! Decoding of the text that the finder printed into the final selection.

use crate::structures::finder::SuggestionType;
use crate::text::{
    lemma_no_lines_iff_empty, lemma_split_on_joined, lemma_split_on_without_separator, lines,
    lines_of, split_on, strip_cr,
};
use vstd::prelude::*;

verus! {

/// Why the finder's output gave no result.
#[derive(Clone, Copy, Debug, PartialEq, Eq, Structural)]
pub enum FinderError {
    /// A single selection was asked for and the finder printed no line.
    InsufficientData,
    /// The finder printed bytes that are not UTF-8.
    InvalidUtf8,
    /// The pattern that separates columns is not a regular expression.
    InvalidDelimiter,
}

impl FinderError {
    /// The message shown for the error.
    pub fn message(&self) -> (text: String)
        ensures
            text@ == match *self {
                FinderError::InsufficientData => "Not sufficient data for single selection"@,
                FinderError::InvalidUtf8 => "Invalid utf8 received from finder"@,
                FinderError::InvalidDelimiter => "Invalid regex"@,
            },
    {
        match self {
            FinderError::InsufficientData => "Not sufficient data for single selection".to_owned(),
            FinderError::InvalidUtf8 => "Invalid utf8 received from finder".to_owned(),
            FinderError::InvalidDelimiter => "Invalid regex".to_owned(),
        }
    }
}

/// The result of a recommendation, read from the lines that the finder
/// printed: the query as typed, the key that ended the session, and the item
/// that was confirmed. `tab` keeps the query; `enter`, or no key, takes the
/// confirmed item and falls back to the query where there is none. Anything
/// else is no result.
pub open spec fn recommendation(printed: Seq<Seq<char>>) -> Seq<char> {
    if printed.len() < 2 {
        Seq::<char>::empty()
    } else {
        let one = printed[0];
        let terminator = printed[1];
        if terminator == "enter"@ || terminator.len() == 0 {
            if printed.len() >= 3 && printed[2].len() > 0 {
                printed[2]
            } else {
                one
            }
        } else if terminator == "tab"@ {
            one
        } else {
            Seq::<char>::empty()
        }
    }
}

/// The text without the separator that the finder puts at its end.
pub open spec fn without_trailing_separator(text: Seq<char>) -> Seq<char> {
    if text.len() > 0 {
        text.drop_last()
    } else {
        text
    }
}

/// The selection that `text` stands for in the given mode, or `None` where a
/// single selection was asked for and there is no line to take.
pub open spec fn decoded(text: Seq<char>, mode: SuggestionType) -> Option<Seq<char>> {
    match mode {
        SuggestionType::SingleSelection => if lines_of(text).len() == 0 {
            None
        } else {
            Some(lines_of(text)[0])
        },
        SuggestionType::MultipleSelections => Some(without_trailing_separator(text)),
        SuggestionType::Disabled => Some(without_trailing_separator(text)),
        SuggestionType::SnippetSelection => Some(without_trailing_separator(text)),
        SuggestionType::SingleRecommendation => Some(recommendation(lines_of(text))),
    }
}

fn is_text(s: &String, expected: &str) -> (same: bool)
    ensures
        same == (s@ == expected@),
{
    let owned = expected.to_owned();
    *s == owned
}

fn drop_trailing_separator(text: String) -> (kept: String)
    ensures
        kept@ == without_trailing_separator(text@),
{
    let mut kept = text;
    let _ = kept.pop();
    kept
}

fn recommended(printed: &Vec<String>) -> (choice: String)
    ensures
        choice@ == recommendation(printed.deep_view()),
{
    proof {
        assert(forall|i: int|
            0 <= i < printed.len() ==> #[trigger] printed.deep_view()[i] == printed[i]@);
    }
    if printed.len() < 2 {
        return String::new();
    }
    let one = &printed[0];
    let terminator = &printed[1];
    if is_text(terminator, "enter") || terminator.as_str().is_empty() {
        if printed.len() >= 3 && !printed[2].as_str().is_empty() {
            printed[2].clone()
        } else {
            one.clone()
        }
    } else if is_text(terminator, "tab") {
        one.clone()
    } else {
        String::new()
    }
}

/// Decodes what the finder printed. A single selection is the first line, and
/// an error where there is none; several selections, a disabled finder and a
/// snippet selection keep the text but for its last character; a
/// recommendation follows [`recommendation`].
pub fn parse_output_single(text: String, suggestion_type: SuggestionType) -> (result: Result<
    String,
    FinderError,
>)
    ensures
        match decoded(text@, suggestion_type) {
            Some(selection) => result matches Ok(s) && s@ == selection,
            None => result == Err::<String, FinderError>(FinderError::InsufficientData),
        },
        result is Err <==> suggestion_type == SuggestionType::SingleSelection && text@.len() == 0,
{
    proof {
        lemma_no_lines_iff_empty(text@);
    }
    match suggestion_type {
        SuggestionType::SingleSelection => {
            let printed = lines(text.as_str());
            if printed.len() == 0 {
                Err(FinderError::InsufficientData)
            } else {
                assert(printed.deep_view()[0] == printed[0]@);
                Ok(printed[0].clone())
            }
        },
        SuggestionType::MultipleSelections => Ok(drop_trailing_separator(text)),
        SuggestionType::Disabled => Ok(drop_trailing_separator(text)),
        SuggestionType::SnippetSelection => Ok(drop_trailing_separator(text)),
        SuggestionType::SingleRecommendation => {
            let printed = lines(text.as_str());
            Ok(recommended(&printed))
        },
    }
}

/// A single selection for which the finder printed one line and a line feed
/// is that line. The line holds no line feed and does not end in a carriage
/// return, which would belong to the line ending.
pub proof fn lemma_single_selection_is_the_line(line: Seq<char>)
    requires
        !line.contains('\n'),
        line.len() > 0 ==> line.last() != '\r',
    ensures
        decoded(line.push('\n'), SuggestionType::SingleSelection) == Some(line),
{
    let text = line.push('\n');
    assert(text == line + seq!['\n'] + Seq::<char>::empty());
    lemma_split_on_joined(line, Seq::<char>::empty(), '\n');
    lemma_split_on_without_separator(line, '\n');
    let pieces = split_on(text, '\n');
    assert(pieces == seq![line, Seq::<char>::empty()]);
    assert(pieces.drop_last() == seq![line]);
    assert(strip_cr(line) == line);
    assert(lines_of(text) == seq![line]);
}

/// Where several selections, a disabled finder or a snippet selection is
/// decoded, a text of `n` characters, `n` above 0, comes back without its last
/// character, `n - 1` characters long, and the empty text comes back empty.
pub proof fn lemma_trailing_separator_is_dropped(text: Seq<char>, mode: SuggestionType)
    requires
        mode == SuggestionType::MultipleSelections || mode == SuggestionType::Disabled || mode
            == SuggestionType::SnippetSelection,
    ensures
        decoded(text, mode) is Some,
        text.len() > 0 ==> decoded(text, mode)->0 == text.take(text.len() - 1) && decoded(
            text,
            mode,
        )->0.len() == text.len() - 1,
        text.len() == 0 ==> decoded(text, mode)->0 == text,
{
}

} // verus!
