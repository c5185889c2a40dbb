//! Keeping one column of the decoded selection.

use crate::text::{join, joined, lemma_split_on_joined, split, split_on, to_chars, to_text};
use vstd::prelude::*;

verus! {

/// The characters that Unicode lists as white space.
pub open spec fn is_whitespace(c: char) -> bool {
    ||| '\t' <= c <= '\r'
    ||| c == ' '
    ||| c == '\u{85}'
    ||| c == '\u{a0}'
    ||| c == '\u{1680}'
    ||| '\u{2000}' <= c <= '\u{200a}'
    ||| c == '\u{2028}'
    ||| c == '\u{2029}'
    ||| c == '\u{202f}'
    ||| c == '\u{205f}'
    ||| c == '\u{3000}'
}

/// Whether a default delimiter, two or more white space characters in a row,
/// covers position `i` and the one after it.
pub open spec fn gap_at(line: Seq<char>, i: int) -> bool {
    0 <= i && i + 1 < line.len() && is_whitespace(line[i]) && is_whitespace(line[i + 1])
}

/// The first position from `from` on at which a default delimiter begins, or
/// the length of the line where there is none.
pub open spec fn next_gap(line: Seq<char>, from: int) -> int
    decreases line.len() - from,
{
    if from < 0 || from >= line.len() {
        line.len() as int
    } else if gap_at(line, from) {
        from
    } else {
        next_gap(line, from + 1)
    }
}

/// The first position from `from` on that holds no white space, or the length
/// of the line where there is none.
pub open spec fn gap_end(line: Seq<char>, from: int) -> int
    decreases line.len() - from,
{
    if from < 0 || from >= line.len() {
        line.len() as int
    } else if !is_whitespace(line[from]) {
        from
    } else {
        gap_end(line, from + 1)
    }
}

/// The fields of `line` from position `start` on: what stands before the next
/// default delimiter, then the fields behind that delimiter.
pub open spec fn fields_from(line: Seq<char>, start: int) -> Seq<Seq<char>>
    decreases line.len() - start,
    via fields_from_decreases
{
    if start < 0 || start > line.len() {
        Seq::<Seq<char>>::empty()
    } else {
        let gap = next_gap(line, start);
        if gap >= line.len() {
            seq![line.subrange(start, line.len() as int)]
        } else {
            seq![line.subrange(start, gap)] + fields_from(line, gap_end(line, gap))
        }
    }
}

#[via_fn]
proof fn fields_from_decreases(line: Seq<char>, start: int) {
    if 0 <= start <= line.len() {
        lemma_next_gap(line, start);
        lemma_gap_end(line, next_gap(line, start));
    }
}

/// The fields of `line` under the default delimiter. A delimiter at either end
/// of the line has an empty field beside it.
pub open spec fn default_fields(line: Seq<char>) -> Seq<Seq<char>> {
    fields_from(line, 0)
}

/// `next_gap` finds the first delimiter and nothing before it.
pub proof fn lemma_next_gap(line: Seq<char>, from: int)
    requires
        0 <= from <= line.len(),
    ensures
        from <= next_gap(line, from) <= line.len(),
        next_gap(line, from) < line.len() ==> gap_at(line, next_gap(line, from)),
        forall|i: int| from <= i < next_gap(line, from) ==> !gap_at(line, i),
    decreases line.len() - from,
{
    if from < line.len() && !gap_at(line, from) {
        lemma_next_gap(line, from + 1);
    }
}

/// `gap_end` skips white space and nothing else.
pub proof fn lemma_gap_end(line: Seq<char>, from: int)
    requires
        0 <= from <= line.len(),
    ensures
        from <= gap_end(line, from) <= line.len(),
        gap_end(line, from) < line.len() ==> !is_whitespace(line[gap_end(line, from)]),
        forall|i: int| from <= i < gap_end(line, from) ==> is_whitespace(line[i]),
        gap_at(line, from) ==> gap_end(line, from) >= from + 2,
    decreases line.len() - from,
{
    if from < line.len() && is_whitespace(line[from]) {
        lemma_gap_end(line, from + 1);
        if gap_at(line, from) {
            assert(is_whitespace(line[from + 1]));
            if from + 1 < line.len() {
                lemma_gap_end(line, from + 2);
            }
        }
    }
}

/// Whether `regex::Regex::new` accepts `pattern` as a regular expression.
pub uninterp spec fn pattern_compiles(pattern: Seq<char>) -> bool;

/// The pieces of `line`, in order, that `regex::Regex::split` yields for the
/// expression that `pattern` compiles to.
pub uninterp spec fn pattern_fields(pattern: Seq<char>, line: Seq<char>) -> Seq<Seq<char>>;

/// Calls `regex::Regex::new` and reports whether it accepted the pattern.
/// Nothing is proved of the answer; it is what `pattern_compiles` names.
#[verifier::external_body]
fn compiles(pattern: &str) -> (accepted: bool)
    ensures
        accepted == pattern_compiles(pattern@),
{
    regex::Regex::new(pattern).is_ok()
}

/// Compiles `pattern` with `regex::Regex::new` and collects what
/// `regex::Regex::split` yields for `line`. Nothing is proved of the pieces;
/// they are what `pattern_fields` names.
#[verifier::external_body]
fn split_by_pattern(pattern: &str, line: &str) -> (fields: Vec<String>)
    requires
        pattern_compiles(pattern@),
    ensures
        fields.deep_view() == pattern_fields(pattern@, line@),
{
    match regex::Regex::new(pattern) {
        Ok(expression) => expression.split(line).map(|field| field.to_owned()).collect(),
        Err(_) => Vec::new(),
    }
}

/// The fields of a line: by the pattern where one is given, else by the
/// default delimiter.
pub open spec fn fields_of(line: Seq<char>, delimiter: Option<Seq<char>>) -> Seq<Seq<char>> {
    match delimiter {
        Some(pattern) => pattern_fields(pattern, line),
        None => default_fields(line),
    }
}

/// The field in the given column, counted from 1, or the empty text where the
/// line has no such field.
pub open spec fn field_at(fields: Seq<Seq<char>>, column: u8) -> Seq<char> {
    if 1 <= column <= fields.len() {
        fields[column - 1]
    } else {
        Seq::<char>::empty()
    }
}

/// For each row that is not empty, in order, its field in the given column.
pub open spec fn column_rows(rows: Seq<Seq<char>>, column: u8, delimiter: Option<Seq<char>>) -> Seq<
    Seq<char>,
>
    decreases rows.len(),
{
    if rows.len() == 0 {
        Seq::<Seq<char>>::empty()
    } else {
        let above = column_rows(rows.drop_last(), column, delimiter);
        if rows.last().len() == 0 {
            above
        } else {
            above.push(field_at(fields_of(rows.last(), delimiter), column))
        }
    }
}

/// What is kept of `text`: all of it where no column is asked for, else the
/// column of every row that is not empty, one row per line.
pub open spec fn column_of(text: Seq<char>, column: Option<u8>, delimiter: Option<Seq<char>>) -> Seq<
    char,
> {
    match column {
        Some(c) => joined(column_rows(split_on(text, '\n'), c, delimiter), seq!['\n']),
        None => text,
    }
}

/// The pattern as the contracts see it.
pub open spec fn pattern_view(delimiter: Option<&str>) -> Option<Seq<char>> {
    match delimiter {
        Some(pattern) => Some(pattern@),
        None => None,
    }
}

/// Without a column the text is kept as it is, whatever the delimiter.
pub proof fn lemma_no_column_keeps_text(text: Seq<char>, delimiter: Option<Seq<char>>)
    ensures
        column_of(text, None, delimiter) == text,
{
}

/// The column of rows that follow one another is that of the first rows and
/// then that of the others.
pub proof fn lemma_column_rows_joined(
    above: Seq<Seq<char>>,
    below: Seq<Seq<char>>,
    column: u8,
    delimiter: Option<Seq<char>>,
)
    ensures
        column_rows(above + below, column, delimiter) == column_rows(above, column, delimiter)
            + column_rows(below, column, delimiter),
    decreases below.len(),
{
    if below.len() == 0 {
        assert(above + below == above);
    } else {
        assert((above + below).drop_last() == above + below.drop_last());
        assert((above + below).last() == below.last());
        lemma_column_rows_joined(above, below.drop_last(), column, delimiter);
    }
}

/// Every line is looked at by itself: what is kept of two texts with a line
/// feed between them is what is kept of the first and then what is kept of
/// the second.
pub proof fn lemma_rows_are_independent(
    above: Seq<char>,
    below: Seq<char>,
    column: u8,
    delimiter: Option<Seq<char>>,
)
    ensures
        column_rows(split_on(above + seq!['\n'] + below, '\n'), column, delimiter) == column_rows(
            split_on(above, '\n'),
            column,
            delimiter,
        ) + column_rows(split_on(below, '\n'), column, delimiter),
{
    lemma_split_on_joined(above, below, '\n');
    lemma_column_rows_joined(split_on(above, '\n'), split_on(below, '\n'), column, delimiter);
}

/// An empty line adds nothing to what is kept: the text with an empty line
/// between two parts gives what the two parts give with one line feed between
/// them.
pub proof fn lemma_blank_line_adds_nothing(
    above: Seq<char>,
    below: Seq<char>,
    column: u8,
    delimiter: Option<Seq<char>>,
)
    ensures
        column_of(above + seq!['\n', '\n'] + below, Some(column), delimiter) == column_of(
            above + seq!['\n'] + below,
            Some(column),
            delimiter,
        ),
{
    let blank = Seq::<char>::empty();
    let first = split_on(above, '\n');
    let last = split_on(below, '\n');
    assert(above + seq!['\n', '\n'] + below == (above + seq!['\n'] + blank) + seq!['\n'] + below);
    lemma_split_on_joined(above + seq!['\n'] + blank, below, '\n');
    lemma_split_on_joined(above, blank, '\n');
    lemma_split_on_joined(above, below, '\n');
    assert(split_on(blank, '\n') == seq![blank]);
    lemma_column_rows_joined(first + seq![blank], last, column, delimiter);
    lemma_column_rows_joined(first, seq![blank], column, delimiter);
    lemma_column_rows_joined(first, last, column, delimiter);
    assert(column_rows(seq![blank], column, delimiter) == Seq::<Seq<char>>::empty()) by {
        assert(seq![blank].drop_last() == Seq::<Seq<char>>::empty());
        assert(column_rows(Seq::<Seq<char>>::empty(), column, delimiter) == Seq::<
            Seq<char>,
        >::empty());
    }
    assert(column_rows(first, column, delimiter) + Seq::<Seq<char>>::empty() == column_rows(
        first,
        column,
        delimiter,
    ));
}

fn is_space(c: char) -> (white: bool)
    ensures
        white == is_whitespace(c),
{
    if '\t' <= c && c <= '\r' {
        true
    } else if '\u{2000}' <= c && c <= '\u{200a}' {
        true
    } else {
        c == ' ' || c == '\u{85}' || c == '\u{a0}' || c == '\u{1680}' || c == '\u{2028}'
            || c == '\u{2029}' || c == '\u{202f}' || c == '\u{205f}' || c == '\u{3000}'
    }
}

fn find_gap(chars: &Vec<char>, from: usize) -> (gap: usize)
    requires
        from <= chars.len(),
    ensures
        gap == next_gap(chars@, from as int),
{
    let mut i: usize = from;
    while i < chars.len()
        invariant
            from <= i <= chars.len(),
            next_gap(chars@, from as int) == next_gap(chars@, i as int),
        decreases chars.len() - i,
    {
        if i + 1 < chars.len() && is_space(chars[i]) && is_space(chars[i + 1]) {
            return i;
        }
        i += 1;
    }
    i
}

fn find_gap_end(chars: &Vec<char>, from: usize) -> (end: usize)
    requires
        from <= chars.len(),
    ensures
        end == gap_end(chars@, from as int),
{
    let mut i: usize = from;
    while i < chars.len()
        invariant
            from <= i <= chars.len(),
            gap_end(chars@, from as int) == gap_end(chars@, i as int),
        decreases chars.len() - i,
    {
        if !is_space(chars[i]) {
            return i;
        }
        i += 1;
    }
    i
}

/// Splits a line at every run of two or more white space characters.
pub fn split_default(line: &str) -> (fields: Vec<String>)
    ensures
        fields.deep_view() == default_fields(line@),
{
    let chars = to_chars(line);
    let mut fields: Vec<String> = Vec::new();
    let mut start: usize = 0;
    loop
        invariant_except_break
            start <= chars.len(),
            default_fields(chars@) == fields.deep_view() + fields_from(chars@, start as int),
        ensures
            default_fields(chars@) == fields.deep_view(),
        decreases chars.len() - start,
    {
        let gap = find_gap(&chars, start);
        proof {
            lemma_next_gap(chars@, start as int);
            lemma_gap_end(chars@, gap as int);
        }
        let ghost before = fields.deep_view();
        let field = to_text(&chars, start, gap);
        fields.push(field);
        assert(fields.deep_view() == before.push(chars@.subrange(start as int, gap as int)));
        if gap >= chars.len() {
            assert(before + fields_from(chars@, start as int) == fields.deep_view());
            break ;
        }
        let end = find_gap_end(&chars, gap);
        assert(before + fields_from(chars@, start as int) == fields.deep_view() + fields_from(
            chars@,
            end as int,
        ));
        start = end;
    }
    fields
}

fn pick(fields: &Vec<String>, column: u8) -> (field: String)
    ensures
        field@ == field_at(fields.deep_view(), column),
{
    if 1 <= column && (column as usize) <= fields.len() {
        let at: usize = (column - 1) as usize;
        assert(fields.deep_view()[at as int] == fields[at as int]@);
        fields[at].clone()
    } else {
        String::new()
    }
}

fn pick_rows(rows: &Vec<String>, column: u8, delimiter: Option<&str>) -> (picked: Vec<String>)
    requires
        delimiter matches Some(pattern) ==> pattern_compiles(pattern@),
    ensures
        picked.deep_view() == column_rows(rows.deep_view(), column, pattern_view(delimiter)),
{
    let ghost all = rows.deep_view();
    let ghost by = pattern_view(delimiter);
    let mut picked: Vec<String> = Vec::new();
    let mut i: usize = 0;
    while i < rows.len()
        invariant
            i <= rows.len(),
            all == rows.deep_view(),
            by == pattern_view(delimiter),
            delimiter matches Some(pattern) ==> pattern_compiles(pattern@),
            picked.deep_view() == column_rows(all.take(i as int), column, by),
        decreases rows.len() - i,
    {
        let row = &rows[i];
        proof {
            assert(all.take(i + 1).drop_last() == all.take(i as int));
            assert(all.take(i + 1).last() == row@);
        }
        if !row.as_str().is_empty() {
            let fields = match delimiter {
                Some(pattern) => split_by_pattern(pattern, row.as_str()),
                None => split_default(row.as_str()),
            };
            let field = pick(&fields, column);
            picked.push(field);
        }
        i += 1;
    }
    assert(all.take(rows.len() as int) == all);
    picked
}

/// Keeps the given column of every row of `text` that is not empty; without a
/// column the text is returned as it is. The rows are split by `delimiter`, a
/// regular expression, or by runs of two or more white space characters where
/// none is given. A delimiter has to be one that compiles; `try_get_column`
/// is for callers that cannot promise it.
pub fn get_column(text: String, column: Option<u8>, delimiter: Option<&str>) -> (kept: String)
    requires
        column is Some ==> (delimiter matches Some(pattern) ==> pattern_compiles(pattern@)),
    ensures
        kept@ == column_of(text@, column, pattern_view(delimiter)),
{
    match column {
        None => text,
        Some(c) => {
            let rows = split(text.as_str(), '\n');
            let picked = pick_rows(&rows, c, delimiter);
            proof {
                reveal_strlit("\n");
                assert("\n"@ == seq!['\n']);
            }
            join(&picked, "\n")
        },
    }
}

/// As `get_column`, for any delimiter: `None` where a column is asked for and
/// the delimiter is not a regular expression.
pub fn try_get_column(text: String, column: Option<u8>, delimiter: Option<&str>) -> (kept: Option<
    String,
>)
    ensures
        kept is None <==> column is Some && (delimiter matches Some(pattern) && !pattern_compiles(
            pattern@,
        )),
        kept matches Some(k) ==> k@ == column_of(text@, column, pattern_view(delimiter)),
{
    let usable = match (column, delimiter) {
        (Some(_), Some(pattern)) => compiles(pattern),
        _ => true,
    };
    if usable {
        Some(get_column(text, column, delimiter))
    } else {
        None
    }
}

} // verus!
