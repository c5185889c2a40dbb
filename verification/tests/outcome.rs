use navi::finder::outcome::{EXIT_CANCELLED, EXIT_UNAVAILABLE};
use navi::finder::{conclude, FinderError, Outcome};
use navi::structures::finder::{Opts, SuggestionType};

const MODES: [SuggestionType; 5] = [
    SuggestionType::Disabled,
    SuggestionType::SingleSelection,
    SuggestionType::MultipleSelections,
    SuggestionType::SingleRecommendation,
    SuggestionType::SnippetSelection,
];

fn selected(result: Result<Outcome, FinderError>) -> String {
    match result {
        Ok(Outcome::Selected(text)) => text,
        _ => panic!("no selection"),
    }
}

#[test]
fn exit_codes() {
    assert_eq!(EXIT_CANCELLED, 130);
    assert_eq!(EXIT_UNAVAILABLE, 33);
}

#[test]
fn completed_run_is_decoded() {
    let opts = Opts::default();
    for status in [0, 1, 2] {
        let result = conclude(&opts, Some(status), b"palo\nalto\n".to_vec(), Vec::new());
        assert_eq!(selected(result), "palo");
    }
}

#[test]
fn completed_run_keeps_the_column() {
    let opts = Opts { column: Some(2), ..Opts::default() };
    let result = conclude(&opts, Some(0), b"user/repo  https://example.org\n".to_vec(), Vec::new());
    assert_eq!(selected(result), "https://example.org");
    let opts = Opts {
        column: Some(1),
        delimiter: Some(":".to_string()),
        suggestion_type: SuggestionType::MultipleSelections,
        ..Opts::default()
    };
    let result = conclude(&opts, Some(0), b"a:b\nc:d\n".to_vec(), b"ignored".to_vec());
    assert_eq!(selected(result), "a\nc");
}

#[test]
fn cancellation_in_every_mode() {
    for mode in MODES {
        let opts = Opts { suggestion_type: mode, ..Opts::default() };
        let result = conclude(&opts, Some(130), b"half\n".to_vec(), b"noise".to_vec());
        assert!(matches!(result, Ok(Outcome::Cancelled)));
        let result = conclude(&opts, Some(130), vec![0xff], vec![0xff]);
        assert!(matches!(result, Ok(Outcome::Cancelled)));
    }
}

#[test]
fn other_status_is_a_failure_with_standard_error() {
    let opts = Opts::default();
    for status in [Some(3), Some(127), Some(-1), Some(129), Some(131), None] {
        match conclude(&opts, status, b"palo\n".to_vec(), b"unknown option".to_vec()) {
            Ok(Outcome::Failed(text)) => assert_eq!(text, "unknown option"),
            _ => panic!("no failure"),
        }
    }
}

#[test]
fn failure_with_unreadable_standard_error() {
    match conclude(&Opts::default(), Some(5), Vec::new(), vec![b'a', 0xc3]) {
        Ok(Outcome::Failed(text)) => assert_eq!(text, "<stderr contains invalid UTF-8>"),
        _ => panic!("no failure"),
    }
}

#[test]
fn output_that_is_not_utf8() {
    for mode in MODES {
        let opts = Opts { suggestion_type: mode, ..Opts::default() };
        let result = conclude(&opts, Some(0), vec![b'o', b'k', 0xff, b'\n'], Vec::new());
        assert!(matches!(result, Err(FinderError::InvalidUtf8)));
    }
    assert_eq!(FinderError::InvalidUtf8.message(), "Invalid utf8 received from finder");
}

#[test]
fn output_in_utf8_is_decoded() {
    let opts = Opts { suggestion_type: SuggestionType::Disabled, ..Opts::default() };
    let result = conclude(&opts, Some(0), "gr\u{fc}n\u{2800}\n".as_bytes().to_vec(), Vec::new());
    assert_eq!(selected(result), "gr\u{fc}n\u{2800}");
}

#[test]
fn no_output_for_a_single_selection() {
    let result = conclude(&Opts::default(), Some(1), Vec::new(), Vec::new());
    assert!(matches!(result, Err(FinderError::InsufficientData)));
    let opts = Opts { suggestion_type: SuggestionType::SingleRecommendation, ..Opts::default() };
    assert_eq!(selected(conclude(&opts, Some(1), Vec::new(), Vec::new())), "");
}

#[test]
fn delimiter_that_does_not_compile() {
    let opts = Opts { column: Some(1), delimiter: Some("(".to_string()), ..Opts::default() };
    let result = conclude(&opts, Some(0), b"a(b\n".to_vec(), Vec::new());
    assert!(matches!(result, Err(FinderError::InvalidDelimiter)));
    assert_eq!(FinderError::InvalidDelimiter.message(), "Invalid regex");
    let opts = Opts { column: None, delimiter: Some("(".to_string()), ..Opts::default() };
    assert_eq!(selected(conclude(&opts, Some(0), b"a(b\n".to_vec(), Vec::new())), "a(b");
    let opts = Opts { column: Some(1), delimiter: Some("(".to_string()), ..Opts::default() };
    let result = conclude(&opts, Some(0), Vec::new(), Vec::new());
    assert!(matches!(result, Err(FinderError::InsufficientData)));
}
