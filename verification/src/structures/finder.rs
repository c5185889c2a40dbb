//! What a caller asks of the finder.

use vstd::prelude::*;

verus! {

/// How the finder is used, and so how its output is read.
#[derive(Clone, Copy, Debug, PartialEq, Eq, Structural)]
pub enum SuggestionType {
    /// The finder shows no suggestions; the query typed is the result.
    Disabled,
    /// The finder returns one of the suggestions.
    SingleSelection,
    /// The finder returns any number of the suggestions.
    MultipleSelections,
    /// The finder returns one of the suggestions, or the query as typed.
    SingleRecommendation,
    /// The first pick of a snippet; the finder reports the key that ended it.
    SnippetSelection,
}

/// A query configuration: what is selected and how the finder is set up.
#[derive(Clone, Debug, PartialEq)]
pub struct Opts {
    pub query: Option<String>,
    pub filter: Option<String>,
    pub prompt: Option<String>,
    pub preview: Option<String>,
    pub preview_window: Option<String>,
    /// A hint to skip the interaction when a single candidate matches. The
    /// finder may not know it, and its options do not depend on it.
    pub autoselect: bool,
    /// Further arguments for the finder, separated by spaces.
    pub overrides: Option<String>,
    /// The number of leading candidate lines that are a fixed header.
    pub header_lines: u8,
    pub header: Option<String>,
    pub suggestion_type: SuggestionType,
    /// A pattern that separates the columns of a result line.
    pub delimiter: Option<String>,
    /// The column of the result to keep, counted from 1.
    pub column: Option<u8>,
}

/// A query configuration with its texts as character sequences.
pub struct OptsView {
    pub query: Option<Seq<char>>,
    pub filter: Option<Seq<char>>,
    pub prompt: Option<Seq<char>>,
    pub preview: Option<Seq<char>>,
    pub preview_window: Option<Seq<char>>,
    pub autoselect: bool,
    pub overrides: Option<Seq<char>>,
    pub header_lines: u8,
    pub header: Option<Seq<char>>,
    pub suggestion_type: SuggestionType,
    pub delimiter: Option<Seq<char>>,
    pub column: Option<u8>,
}

/// The characters of a text that may be absent.
pub open spec fn text_of(text: Option<String>) -> Option<Seq<char>> {
    match text {
        Some(t) => Some(t@),
        None => None,
    }
}

impl View for Opts {
    type V = OptsView;

    open spec fn view(&self) -> OptsView {
        OptsView {
            query: text_of(self.query),
            filter: text_of(self.filter),
            prompt: text_of(self.prompt),
            preview: text_of(self.preview),
            preview_window: text_of(self.preview_window),
            autoselect: self.autoselect,
            overrides: text_of(self.overrides),
            header_lines: self.header_lines,
            header: text_of(self.header),
            suggestion_type: self.suggestion_type,
            delimiter: text_of(self.delimiter),
            column: self.column,
        }
    }
}

/// The configuration that asks for nothing in particular: a single selection
/// with the finder's own texts, no header, the whole line as the result.
pub open spec fn default_opts() -> OptsView {
    OptsView {
        query: None,
        filter: None,
        prompt: None,
        preview: None,
        preview_window: None,
        autoselect: true,
        overrides: None,
        header_lines: 0,
        header: None,
        suggestion_type: SuggestionType::SingleSelection,
        delimiter: None,
        column: None,
    }
}

impl Default for Opts {
    fn default() -> (opts: Self)
        ensures
            opts@ == default_opts(),
    {
        Opts {
            query: None,
            filter: None,
            prompt: None,
            preview: None,
            preview_window: None,
            autoselect: true,
            overrides: None,
            header_lines: 0,
            header: None,
            suggestion_type: SuggestionType::SingleSelection,
            delimiter: None,
            column: None,
        }
    }
}

} // verus!
