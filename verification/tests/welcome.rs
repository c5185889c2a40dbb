use navi::display::{format_line, limit_str, COMMENT_WIDTH, DELIMITER, TAG_WIDTH};
use navi::welcome::{add_msg, cheatsheet};

#[test]
fn delimiter_is_two_spaces_and_a_blank_pattern() {
    assert_eq!(DELIMITER, "  \u{2800}");
    assert_eq!(TAG_WIDTH, 20);
    assert_eq!(COMMENT_WIDTH, 60);
}

#[test]
fn short_text_is_filled() {
    assert_eq!(limit_str("ssh", 5), "ssh  ");
    assert_eq!(limit_str("", 3), "   ");
    assert_eq!(limit_str("abc", 3), "abc");
    assert_eq!(limit_str("", 0), "");
    assert_eq!(limit_str("\u{e9}t\u{e9}", 4), "\u{e9}t\u{e9} ");
}

#[test]
fn long_text_is_cut() {
    assert_eq!(limit_str("abcdef", 4), "abc\u{2026}");
    assert_eq!(limit_str("abcd", 3), "ab\u{2026}");
    assert_eq!(limit_str("ab", 1), "\u{2026}");
    assert_eq!(limit_str("ab", 0), "\u{2026}");
    assert_eq!(limit_str("\u{e9}\u{e8}\u{ea}\u{eb}", 3), "\u{e9}\u{e8}\u{2026}");
}

#[test]
fn line_of_a_candidate() {
    let line = format_line("ssh", "login to a server", "ssh <user>@<host>", 5, 10);
    assert_eq!(
        line,
        "ssh    \u{2800}login to \u{2026}  \u{2800}ssh <user>@<host>  \u{2800}ssh  \u{2800}login to a server  \u{2800}ssh <user>@<host>  \u{2800}\n"
    );
}

#[test]
fn message_is_written_behind_what_is_there() {
    let mut stdin = b"before\n".to_vec();
    add_msg("tag", "comment", "snippet", &mut stdin);
    let mut expected = b"before\n".to_vec();
    expected.extend_from_slice(format_line("tag", "comment", "snippet", 20, 60).as_bytes());
    assert_eq!(stdin, expected);
    assert!(stdin.len() > 7 + 20 + 60);
}

#[test]
fn welcome_sheet_has_three_candidates() {
    let mut stdin = Vec::new();
    cheatsheet(&mut stdin);
    let text = String::from_utf8(stdin).unwrap();
    let rows: Vec<&str> = text.lines().collect();
    assert_eq!(rows.len(), 3);
    let fields: Vec<&str> = rows[0].split(DELIMITER).collect();
    assert_eq!(fields[0], "cheatsheets         ");
    assert_eq!(fields[1].trim_end(), "Download default cheatsheets");
    assert_eq!(fields[1].chars().count(), 60);
    assert_eq!(fields[2], "navi repo add denisidoro/cheats");
    assert_eq!(fields[3], "cheatsheets");
    assert_eq!(fields[4], "Download default cheatsheets");
    assert_eq!(fields[5], "navi repo add denisidoro/cheats");
    assert_eq!(fields[6], "");
    let fields: Vec<&str> = rows[1].split(DELIMITER).collect();
    assert_eq!(fields[3..6], ["cheatsheets", "Browse for cheatsheet repos", "navi repo browse"]);
    let fields: Vec<&str> = rows[2].split(DELIMITER).collect();
    assert_eq!(fields[3..6], ["more info", "Read --help message", "navi --help"]);
    assert!(text.ends_with("\n"));
}
