use navi::display::DELIMITER;
use navi::finder::options::{decimal, tokens};
use navi::finder::FinderOptions;
use navi::structures::finder::{Opts, SuggestionType};

fn texts(values: &[&str]) -> Vec<String> {
    values.iter().map(|value| value.to_string()).collect()
}

fn baseline_holds(options: &FinderOptions) {
    assert!(options.ansi);
    assert!(options.exact);
    assert_eq!(options.with_nth, "1,2,3");
    assert_eq!(options.delimiter, DELIMITER);
    assert_eq!(options.bind, texts(&["ctrl-j:down", "ctrl-k:up"]));
}

#[test]
fn default_configuration() {
    let opts = Opts::default();
    assert_eq!(opts.suggestion_type, SuggestionType::SingleSelection);
    assert!(opts.autoselect);
    assert_eq!(opts.header_lines, 0);
    assert_eq!(opts.column, None);
    assert_eq!(opts.query, None);
    assert_eq!(opts.overrides, None);
    assert_eq!(opts.delimiter, None);
}

#[test]
fn single_selection_is_the_baseline() {
    let options = FinderOptions::from(&Opts::default());
    baseline_holds(&options);
    assert!(!options.multi);
    assert!(!options.print_query);
    assert_eq!(options.preview_window, "up:2");
    assert_eq!(options.height, None);
    assert_eq!(options.expect, None);
    assert_eq!(options.preview, None);
    assert_eq!(options.query, None);
    assert_eq!(options.filter, None);
    assert_eq!(options.header, None);
    assert_eq!(options.prompt, None);
    assert_eq!(options.header_lines, 0);
    assert!(options.extra.is_empty());
}

#[test]
fn multiple_selections_enable_multi() {
    let opts = Opts { suggestion_type: SuggestionType::MultipleSelections, ..Opts::default() };
    let options = FinderOptions::from(&opts);
    baseline_holds(&options);
    assert!(options.multi);
    assert!(!options.print_query);
    assert_eq!(options.height, None);
    assert_eq!(options.expect, None);
}

#[test]
fn disabled_prints_the_query_on_one_line() {
    let opts = Opts { suggestion_type: SuggestionType::Disabled, ..Opts::default() };
    let options = FinderOptions::from(&opts);
    baseline_holds(&options);
    assert!(!options.multi);
    assert!(options.print_query);
    assert_eq!(options.height, Some("1".to_string()));
    assert_eq!(options.expect, None);
}

#[test]
fn snippet_selection_expects_two_keys() {
    let opts = Opts { suggestion_type: SuggestionType::SnippetSelection, ..Opts::default() };
    let options = FinderOptions::from(&opts);
    baseline_holds(&options);
    assert!(!options.multi);
    assert!(!options.print_query);
    assert_eq!(options.height, None);
    assert_eq!(options.expect, Some("ctrl-y,enter".to_string()));
}

#[test]
fn single_recommendation_prints_the_query_and_expects_two_keys() {
    let opts = Opts { suggestion_type: SuggestionType::SingleRecommendation, ..Opts::default() };
    let options = FinderOptions::from(&opts);
    baseline_holds(&options);
    assert!(!options.multi);
    assert!(options.print_query);
    assert_eq!(options.height, None);
    assert_eq!(options.expect, Some("tab,enter".to_string()));
}

#[test]
fn texts_are_handed_on() {
    let opts = Opts {
        query: Some("ssh".to_string()),
        filter: Some("login".to_string()),
        prompt: Some("> ".to_string()),
        preview: Some("cat {}".to_string()),
        preview_window: Some("right:30%".to_string()),
        header: Some("Pick one".to_string()),
        header_lines: 3,
        ..Opts::default()
    };
    let options = FinderOptions::from(&opts);
    baseline_holds(&options);
    assert_eq!(options.query, Some("ssh".to_string()));
    assert_eq!(options.filter, Some("login".to_string()));
    assert_eq!(options.prompt, Some("> ".to_string()));
    assert_eq!(options.preview, Some("cat {}".to_string()));
    assert_eq!(options.preview_window, "right:30%");
    assert_eq!(options.header, Some("Pick one".to_string()));
    assert_eq!(options.header_lines, 3);
}

#[test]
fn autoselect_changes_nothing() {
    let on = FinderOptions::from(&Opts { autoselect: true, ..Opts::default() });
    let off = FinderOptions::from(&Opts { autoselect: false, ..Opts::default() });
    assert_eq!(on.to_args(), off.to_args());
}

#[test]
fn overrides_are_split_at_spaces() {
    let opts = Opts { overrides: Some("  --tac   --no-sort -x ".to_string()), ..Opts::default() };
    let options = FinderOptions::from(&opts);
    assert_eq!(options.extra, texts(&["--tac", "--no-sort", "-x"]));
    assert_eq!(tokens(""), Vec::<String>::new());
    assert_eq!(tokens("   "), Vec::<String>::new());
    assert_eq!(tokens("one"), texts(&["one"]));
    assert_eq!(tokens("a\tb c"), texts(&["a\tb", "c"]));
}

#[test]
fn arguments_of_the_baseline() {
    let args = FinderOptions::from(&Opts::default()).to_args();
    assert_eq!(
        args,
        texts(&[
            "--ansi",
            "--exact",
            "--with-nth",
            "1,2,3",
            "--delimiter",
            "  \u{2800}",
            "--bind",
            "ctrl-j:down",
            "--bind",
            "ctrl-k:up",
            "--preview-window",
            "up:2",
            "--header-lines",
            "0",
        ])
    );
}

#[test]
fn arguments_of_a_full_configuration() {
    let opts = Opts {
        query: Some("q".to_string()),
        filter: Some("f".to_string()),
        prompt: Some("p".to_string()),
        preview: Some("v".to_string()),
        preview_window: Some("w".to_string()),
        header: Some("h".to_string()),
        header_lines: 12,
        suggestion_type: SuggestionType::SingleRecommendation,
        overrides: Some("--tac --cycle".to_string()),
        ..Opts::default()
    };
    let args = FinderOptions::from(&opts).to_args();
    assert_eq!(
        args,
        texts(&[
            "--ansi",
            "--exact",
            "--with-nth",
            "1,2,3",
            "--delimiter",
            "  \u{2800}",
            "--bind",
            "ctrl-j:down",
            "--bind",
            "ctrl-k:up",
            "--preview-window",
            "w",
            "--print-query",
            "--expect",
            "tab,enter",
            "--preview",
            "v",
            "--query",
            "q",
            "--filter",
            "f",
            "--header",
            "h",
            "--prompt",
            "p",
            "--header-lines",
            "12",
            "--tac",
            "--cycle",
        ])
    );
}

#[test]
fn arguments_of_the_other_modes() {
    let multi = Opts { suggestion_type: SuggestionType::MultipleSelections, ..Opts::default() };
    assert!(FinderOptions::from(&multi).to_args().contains(&"--multi".to_string()));
    let disabled = Opts { suggestion_type: SuggestionType::Disabled, ..Opts::default() };
    let args = FinderOptions::from(&disabled).to_args();
    assert_eq!(args[12..], texts(&["--print-query", "--height", "1", "--header-lines", "0"]));
    let snippet = Opts { suggestion_type: SuggestionType::SnippetSelection, ..Opts::default() };
    let args = FinderOptions::from(&snippet).to_args();
    assert_eq!(args[12..], texts(&["--expect", "ctrl-y,enter", "--header-lines", "0"]));
}

#[test]
fn numbers_in_decimal() {
    assert_eq!(decimal(0), "0");
    assert_eq!(decimal(7), "7");
    assert_eq!(decimal(10), "10");
    assert_eq!(decimal(255), "255");
    assert_eq!(decimal(1234567890), "1234567890");
    assert_eq!(decimal(usize::MAX), usize::MAX.to_string());
}
