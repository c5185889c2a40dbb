//! The finder's options for a query configuration.

use crate::display::DELIMITER;
use crate::structures::finder::{text_of, Opts, OptsView, SuggestionType};
use crate::text::{split, split_on};
use vstd::prelude::*;

verus! {

/// How one run of the finder is configured.
#[derive(Clone, Debug, PartialEq, Eq)]
pub struct FinderOptions {
    /// Colour codes in the candidates are shown as colours.
    pub ansi: bool,
    /// The query is matched as typed, not fuzzily.
    pub exact: bool,
    /// Several items can be selected.
    pub multi: bool,
    /// The query is printed before the selection.
    pub print_query: bool,
    /// The fields of a candidate that are shown.
    pub with_nth: String,
    /// What separates the fields of a candidate.
    pub delimiter: String,
    /// Key bindings, each a key, a colon and an action.
    pub bind: Vec<String>,
    /// Where the preview stands and how large it is.
    pub preview_window: String,
    /// The height of the finder, where it is not the whole screen.
    pub height: Option<String>,
    /// Keys that end the session and are printed before the selection.
    pub expect: Option<String>,
    pub preview: Option<String>,
    pub query: Option<String>,
    pub filter: Option<String>,
    pub header: Option<String>,
    pub prompt: Option<String>,
    /// The number of leading candidates that are a fixed header.
    pub header_lines: usize,
    /// Arguments handed on as they are, after all others.
    pub extra: Vec<String>,
}

/// The options with their texts as character sequences.
pub struct FinderOptionsView {
    pub ansi: bool,
    pub exact: bool,
    pub multi: bool,
    pub print_query: bool,
    pub with_nth: Seq<char>,
    pub delimiter: Seq<char>,
    pub bind: Seq<Seq<char>>,
    pub preview_window: Seq<char>,
    pub height: Option<Seq<char>>,
    pub expect: Option<Seq<char>>,
    pub preview: Option<Seq<char>>,
    pub query: Option<Seq<char>>,
    pub filter: Option<Seq<char>>,
    pub header: Option<Seq<char>>,
    pub prompt: Option<Seq<char>>,
    pub header_lines: nat,
    pub extra: Seq<Seq<char>>,
}

impl View for FinderOptions {
    type V = FinderOptionsView;

    open spec fn view(&self) -> FinderOptionsView {
        FinderOptionsView {
            ansi: self.ansi,
            exact: self.exact,
            multi: self.multi,
            print_query: self.print_query,
            with_nth: self.with_nth@,
            delimiter: self.delimiter@,
            bind: self.bind.deep_view(),
            preview_window: self.preview_window@,
            height: text_of(self.height),
            expect: text_of(self.expect),
            preview: text_of(self.preview),
            query: text_of(self.query),
            filter: text_of(self.filter),
            header: text_of(self.header),
            prompt: text_of(self.prompt),
            header_lines: self.header_lines as nat,
            extra: self.extra.deep_view(),
        }
    }
}

/// The pieces that are not empty, in order.
pub open spec fn without_empty(pieces: Seq<Seq<char>>) -> Seq<Seq<char>>
    decreases pieces.len(),
{
    if pieces.len() == 0 {
        pieces
    } else if pieces.last().len() == 0 {
        without_empty(pieces.drop_last())
    } else {
        without_empty(pieces.drop_last()).push(pieces.last())
    }
}

/// The arguments that a text of overrides stands for: what stands between its
/// spaces, without what is empty.
pub open spec fn override_tokens(overrides: Option<Seq<char>>) -> Seq<Seq<char>> {
    match overrides {
        Some(text) => without_empty(split_on(text, ' ')),
        None => Seq::<Seq<char>>::empty(),
    }
}

/// Whether the query is printed before the selection in the given mode.
pub open spec fn prints_query(mode: SuggestionType) -> bool {
    match mode {
        SuggestionType::Disabled => true,
        SuggestionType::SingleRecommendation => true,
        SuggestionType::SingleSelection => false,
        SuggestionType::MultipleSelections => false,
        SuggestionType::SnippetSelection => false,
    }
}

/// The keys that end the session and are reported in the given mode.
pub open spec fn expected_keys(mode: SuggestionType) -> Option<Seq<char>> {
    match mode {
        SuggestionType::SnippetSelection => Some("ctrl-y,enter"@),
        SuggestionType::SingleRecommendation => Some("tab,enter"@),
        SuggestionType::Disabled => None,
        SuggestionType::SingleSelection => None,
        SuggestionType::MultipleSelections => None,
    }
}

/// The options that a query configuration asks for. The same for every mode:
/// colours, the first three fields shown, the display delimiter, two keys for
/// moving down and up, exact matching and a preview of two lines at the top.
/// The mode adds to these, and so does every text that the configuration
/// holds. The hint `autoselect` changes nothing.
pub open spec fn options_for(opts: OptsView) -> FinderOptionsView {
    FinderOptionsView {
        ansi: true,
        exact: true,
        multi: opts.suggestion_type == SuggestionType::MultipleSelections,
        print_query: prints_query(opts.suggestion_type),
        with_nth: "1,2,3"@,
        delimiter: DELIMITER@,
        bind: seq!["ctrl-j:down"@, "ctrl-k:up"@],
        preview_window: match opts.preview_window {
            Some(window) => window,
            None => "up:2"@,
        },
        height: if opts.suggestion_type == SuggestionType::Disabled {
            Some("1"@)
        } else {
            None
        },
        expect: expected_keys(opts.suggestion_type),
        preview: opts.preview,
        query: opts.query,
        filter: opts.filter,
        header: opts.header,
        prompt: opts.prompt,
        header_lines: opts.header_lines as nat,
        extra: override_tokens(opts.overrides),
    }
}

/// The decimal digits of `n`.
pub open spec fn decimal_digits(n: nat) -> Seq<char>
    decreases n,
{
    if n < 10 {
        seq![digit_char(n)]
    } else {
        decimal_digits(n / 10).push(digit_char(n % 10))
    }
}

/// The character for a digit.
pub open spec fn digit_char(d: nat) -> char {
    if d == 0 {
        '0'
    } else if d == 1 {
        '1'
    } else if d == 2 {
        '2'
    } else if d == 3 {
        '3'
    } else if d == 4 {
        '4'
    } else if d == 5 {
        '5'
    } else if d == 6 {
        '6'
    } else if d == 7 {
        '7'
    } else if d == 8 {
        '8'
    } else {
        '9'
    }
}

/// A switch on the command line: its name where it is on.
pub open spec fn switch(name: Seq<char>, on: bool) -> Seq<Seq<char>> {
    if on {
        seq![name]
    } else {
        Seq::<Seq<char>>::empty()
    }
}

/// A setting on the command line: its name and its value, where it has one.
pub open spec fn setting(name: Seq<char>, value: Option<Seq<char>>) -> Seq<Seq<char>> {
    match value {
        Some(v) => seq![name, v],
        None => Seq::<Seq<char>>::empty(),
    }
}

/// A setting given once for each of its values.
pub open spec fn repeated(name: Seq<char>, values: Seq<Seq<char>>) -> Seq<Seq<char>>
    decreases values.len(),
{
    if values.len() == 0 {
        Seq::<Seq<char>>::empty()
    } else {
        repeated(name, values.drop_last()) + seq![name, values.last()]
    }
}

/// The command line arguments that set the finder up as the options say, in
/// the order in which they are handed over.
pub open spec fn arguments(options: FinderOptionsView) -> Seq<Seq<char>> {
    switch("--ansi"@, options.ansi) + switch("--exact"@, options.exact) + seq![
        "--with-nth"@,
        options.with_nth,
    ] + seq!["--delimiter"@, options.delimiter] + repeated("--bind"@, options.bind) + seq![
        "--preview-window"@,
        options.preview_window,
    ] + switch("--multi"@, options.multi) + switch("--print-query"@, options.print_query)
        + setting("--height"@, options.height) + setting("--expect"@, options.expect) + setting(
        "--preview"@,
        options.preview,
    ) + setting("--query"@, options.query) + setting("--filter"@, options.filter) + setting(
        "--header"@,
        options.header,
    ) + setting("--prompt"@, options.prompt) + seq![
        "--header-lines"@,
        decimal_digits(options.header_lines),
    ] + options.extra
}

fn copy_text(text: &Option<String>) -> (copy: Option<String>)
    ensures
        text_of(copy) == text_of(*text),
{
    match text {
        Some(t) => Some(t.clone()),
        None => None,
    }
}

fn copy_texts(texts: &Vec<String>) -> (copy: Vec<String>)
    ensures
        copy.deep_view() == texts.deep_view(),
{
    let mut copy: Vec<String> = Vec::new();
    let mut i: usize = 0;
    while i < texts.len()
        invariant
            i <= texts.len(),
            copy.deep_view() == texts.deep_view().take(i as int),
        decreases texts.len() - i,
    {
        copy.push(texts[i].clone());
        assert(texts.deep_view().take(i + 1) == texts.deep_view().take(i as int).push(texts[i as int]@));
        i += 1;
    }
    assert(texts.deep_view().take(texts.len() as int) == texts.deep_view());
    copy
}

/// Splits a text of overrides into the arguments that it holds.
pub fn tokens(overrides: &str) -> (found: Vec<String>)
    ensures
        found.deep_view() == override_tokens(Some(overrides@)),
{
    let pieces = split(overrides, ' ');
    let mut found: Vec<String> = Vec::new();
    let mut i: usize = 0;
    while i < pieces.len()
        invariant
            i <= pieces.len(),
            found.deep_view() == without_empty(pieces.deep_view().take(i as int)),
        decreases pieces.len() - i,
    {
        proof {
            let upto = pieces.deep_view().take(i + 1);
            assert(upto.drop_last() == pieces.deep_view().take(i as int));
            assert(upto.last() == pieces[i as int]@);
        }
        if !pieces[i].as_str().is_empty() {
            found.push(pieces[i].clone());
        }
        i += 1;
    }
    assert(pieces.deep_view().take(pieces.len() as int) == pieces.deep_view());
    found
}

fn digit(d: usize) -> (c: char)
    requires
        d < 10,
    ensures
        c == digit_char(d as nat),
{
    if d == 0 {
        '0'
    } else if d == 1 {
        '1'
    } else if d == 2 {
        '2'
    } else if d == 3 {
        '3'
    } else if d == 4 {
        '4'
    } else if d == 5 {
        '5'
    } else if d == 6 {
        '6'
    } else if d == 7 {
        '7'
    } else if d == 8 {
        '8'
    } else {
        '9'
    }
}

/// Writes a number in decimal digits.
pub fn decimal(n: usize) -> (text: String)
    ensures
        text@ == decimal_digits(n as nat),
    decreases n,
{
    if n < 10 {
        let mut text = String::new();
        text.push(digit(n));
        text
    } else {
        let mut text = decimal(n / 10);
        text.push(digit(n % 10));
        text
    }
}

fn add_switch(args: &mut Vec<String>, name: &str, on: bool)
    ensures
        final(args).deep_view() == old(args).deep_view() + switch(name@, on),
{
    if on {
        args.push(name.to_owned());
    }
}

fn add_value(args: &mut Vec<String>, name: &str, value: &str)
    ensures
        final(args).deep_view() == old(args).deep_view() + seq![name@, value@],
{
    args.push(name.to_owned());
    args.push(value.to_owned());
}

fn add_setting(args: &mut Vec<String>, name: &str, value: &Option<String>)
    ensures
        final(args).deep_view() == old(args).deep_view() + setting(name@, text_of(*value)),
{
    match value {
        Some(v) => add_value(args, name, v.as_str()),
        None => {},
    }
}

fn add_repeated(args: &mut Vec<String>, name: &str, values: &Vec<String>)
    ensures
        final(args).deep_view() == old(args).deep_view() + repeated(name@, values.deep_view()),
{
    let mut i: usize = 0;
    while i < values.len()
        invariant
            i <= values.len(),
            args.deep_view() == old(args).deep_view() + repeated(
                name@,
                values.deep_view().take(i as int),
            ),
        decreases values.len() - i,
    {
        proof {
            let upto = values.deep_view().take(i + 1);
            assert(upto.drop_last() == values.deep_view().take(i as int));
            assert(upto.last() == values[i as int]@);
        }
        add_value(args, name, values[i].as_str());
        i += 1;
    }
    assert(values.deep_view().take(values.len() as int) == values.deep_view());
}

fn add_all(args: &mut Vec<String>, more: &Vec<String>)
    ensures
        final(args).deep_view() == old(args).deep_view() + more.deep_view(),
{
    let mut i: usize = 0;
    while i < more.len()
        invariant
            i <= more.len(),
            args.deep_view() == old(args).deep_view() + more.deep_view().take(i as int),
        decreases more.len() - i,
    {
        let ghost before = args.deep_view();
        args.push(more[i].clone());
        assert(args.deep_view() == before.push(more[i as int]@));
        assert(more.deep_view().take(i + 1) == more.deep_view().take(i as int).push(more[i as int]@));
        i += 1;
    }
    assert(more.deep_view().take(more.len() as int) == more.deep_view());
}

impl FinderOptions {
    /// Builds the finder's options for a query configuration.
    pub fn from(opts: &Opts) -> (options: FinderOptions)
        ensures
            options@ == options_for(opts@),
    {
        let mode = opts.suggestion_type;
        let mut bind: Vec<String> = Vec::new();
        bind.push("ctrl-j:down".to_owned());
        bind.push("ctrl-k:up".to_owned());
        let mut options = FinderOptions {
            ansi: true,
            exact: true,
            multi: false,
            print_query: false,
            with_nth: "1,2,3".to_owned(),
            delimiter: DELIMITER.to_owned(),
            bind,
            preview_window: "up:2".to_owned(),
            height: None,
            expect: None,
            preview: copy_text(&opts.preview),
            query: copy_text(&opts.query),
            filter: copy_text(&opts.filter),
            header: copy_text(&opts.header),
            prompt: copy_text(&opts.prompt),
            header_lines: opts.header_lines as usize,
            extra: Vec::new(),
        };
        match mode {
            SuggestionType::MultipleSelections => {
                options.multi = true;
            },
            SuggestionType::Disabled => {
                options.print_query = true;
                options.height = Some("1".to_owned());
            },
            SuggestionType::SnippetSelection => {
                options.expect = Some("ctrl-y,enter".to_owned());
            },
            SuggestionType::SingleRecommendation => {
                options.print_query = true;
                options.expect = Some("tab,enter".to_owned());
            },
            SuggestionType::SingleSelection => {},
        }
        match &opts.preview_window {
            Some(window) => {
                options.preview_window = window.clone();
            },
            None => {},
        }
        match &opts.overrides {
            Some(overrides) => {
                options.extra = tokens(overrides.as_str());
            },
            None => {},
        }
        assert(options@.bind == seq!["ctrl-j:down"@, "ctrl-k:up"@]);
        assert(options@.extra == override_tokens(text_of(opts.overrides)));
        options
    }

    /// The command line arguments for these options.
    pub fn to_args(&self) -> (args: Vec<String>)
        ensures
            args.deep_view() == arguments(self@),
    {
        let mut args: Vec<String> = Vec::new();
        add_switch(&mut args, "--ansi", self.ansi);
        add_switch(&mut args, "--exact", self.exact);
        add_value(&mut args, "--with-nth", self.with_nth.as_str());
        add_value(&mut args, "--delimiter", self.delimiter.as_str());
        add_repeated(&mut args, "--bind", &self.bind);
        add_value(&mut args, "--preview-window", self.preview_window.as_str());
        add_switch(&mut args, "--multi", self.multi);
        add_switch(&mut args, "--print-query", self.print_query);
        add_setting(&mut args, "--height", &self.height);
        add_setting(&mut args, "--expect", &self.expect);
        add_setting(&mut args, "--preview", &self.preview);
        add_setting(&mut args, "--query", &self.query);
        add_setting(&mut args, "--filter", &self.filter);
        add_setting(&mut args, "--header", &self.header);
        add_setting(&mut args, "--prompt", &self.prompt);
        let lines = decimal(self.header_lines);
        add_value(&mut args, "--header-lines", lines.as_str());
        add_all(&mut args, &self.extra);
        args
    }
}

} // verus!
