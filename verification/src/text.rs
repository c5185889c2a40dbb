//! Splitting and joining of character sequences, and the few `String`
//! operations the rest of the crate is built on.

use vstd::prelude::*;

verus! {

/// `String::push` appends one character.
pub assume_specification[ String::push ](s: &mut String, c: char)
    ensures
        final(s)@ == old(s)@.push(c),
;

/// `String::pop` removes the last character and returns it, or returns `None`
/// and leaves an empty string as it is.
pub assume_specification[ String::pop ](s: &mut String) -> (last: Option<char>)
    ensures
        old(s)@.len() == 0 ==> last is None && final(s)@ == old(s)@,
        old(s)@.len() > 0 ==> last == Some(old(s)@.last()) && final(s)@ == old(s)@.drop_last(),
;

/// The pieces of `s` between occurrences of `sep`. There is always one piece
/// more than there are separators, so the empty sequence has one empty piece.
pub open spec fn split_on(s: Seq<char>, sep: char) -> Seq<Seq<char>>
    decreases s.len(),
{
    if s.len() == 0 {
        seq![Seq::<char>::empty()]
    } else {
        let before = split_on(s.drop_last(), sep);
        if s.last() == sep {
            before.push(Seq::<char>::empty())
        } else {
            before.drop_last().push(before.last().push(s.last()))
        }
    }
}

/// Splits `text` at every occurrence of `sep`.
pub fn split(text: &str, sep: char) -> (parts: Vec<String>)
    ensures
        parts.deep_view() == split_on(text@, sep),
{
    let mut parts: Vec<String> = Vec::new();
    let mut piece = String::new();
    for c in it: text.chars()
        invariant
            it.seq() == text@,
            split_on(text@.take(it.index()), sep) == parts.deep_view().push(piece@),
    {
        proof {
            let upto = text@.take(it.index() + 1);
            assert(upto.drop_last() == text@.take(it.index()));
            assert(upto.last() == c);
        }
        if c == sep {
            parts.push(piece);
            piece = String::new();
        } else {
            piece.push(c);
        }
    }
    proof {
        assert(text@.take(text@.len() as int) == text@);
    }
    parts.push(piece);
    parts
}

/// A piece without the carriage return that may end it.
pub open spec fn strip_cr(piece: Seq<char>) -> Seq<char> {
    if piece.len() > 0 && piece.last() == '\r' {
        piece.drop_last()
    } else {
        piece
    }
}

/// The lines of `s`. A line ends at a line feed, or at a carriage return
/// directly followed by one; neither belongs to the line. What follows the
/// last line feed is a line of its own unless it is empty, so a final line
/// ending is optional and the empty sequence has no line at all.
pub open spec fn lines_of(s: Seq<char>) -> Seq<Seq<char>> {
    let pieces = split_on(s, '\n');
    let ended = pieces.drop_last().map_values(|piece: Seq<char>| strip_cr(piece));
    if pieces.last().len() == 0 {
        ended
    } else {
        ended.push(pieces.last())
    }
}

/// Splitting never yields nothing, and the last piece is what follows the
/// last separator.
pub proof fn lemma_split_on_shape(s: Seq<char>, sep: char)
    ensures
        split_on(s, sep).len() >= 1,
        split_on(s, sep).last().len() <= s.len(),
        split_on(s, sep).len() == 1 ==> split_on(s, sep).last() == s,
        s.len() > 0 && s.last() == sep ==> split_on(s, sep).last().len() == 0 && split_on(
            s,
            sep,
        ).len() >= 2,
    decreases s.len(),
{
    if s.len() > 0 {
        lemma_split_on_shape(s.drop_last(), sep);
        let before = split_on(s.drop_last(), sep);
        if s.last() != sep && before.len() == 1 {
            assert(before.last().push(s.last()) == s);
        }
    }
}

/// A sequence that does not hold the separator is one piece.
pub proof fn lemma_split_on_without_separator(s: Seq<char>, sep: char)
    requires
        !s.contains(sep),
    ensures
        split_on(s, sep) == seq![s],
    decreases s.len(),
{
    if s.len() > 0 {
        assert(s.drop_last().contains(sep) ==> s.contains(sep)) by {
            if s.drop_last().contains(sep) {
                let i = choose|i: int| 0 <= i < s.drop_last().len() && s.drop_last()[i] == sep;
                assert(s[i] == sep);
            }
        }
        assert(s.last() != sep) by {
            if s.last() == sep {
                assert(s[s.len() - 1] == sep);
            }
        }
        lemma_split_on_without_separator(s.drop_last(), sep);
        assert(s.drop_last().push(s.last()) == s);
        assert(seq![s.drop_last()].drop_last().push(s) == seq![s]);
    } else {
        assert(s == Seq::<char>::empty());
    }
}

/// The pieces of two sequences with a separator between them are the pieces
/// of the first and then those of the second.
pub proof fn lemma_split_on_joined(a: Seq<char>, b: Seq<char>, sep: char)
    ensures
        split_on(a + seq![sep] + b, sep) == split_on(a, sep) + split_on(b, sep),
    decreases b.len(),
{
    let whole = a + seq![sep] + b;
    lemma_split_on_shape(a, sep);
    lemma_split_on_shape(b, sep);
    if b.len() == 0 {
        assert(whole.drop_last() == a);
        assert(split_on(a, sep).push(Seq::<char>::empty()) == split_on(a, sep) + split_on(b, sep));
    } else {
        assert(whole.drop_last() == a + seq![sep] + b.drop_last());
        assert(whole.last() == b.last());
        lemma_split_on_joined(a, b.drop_last(), sep);
        lemma_split_on_shape(b.drop_last(), sep);
        let front = split_on(a, sep);
        let back = split_on(b.drop_last(), sep);
        if b.last() == sep {
            assert((front + back).push(Seq::<char>::empty()) == front + back.push(
                Seq::<char>::empty(),
            ));
        } else {
            assert((front + back).drop_last() == front + back.drop_last());
            assert((front + back).last() == back.last());
            assert((front + back.drop_last()).push(back.last().push(b.last())) == front
                + back.drop_last().push(back.last().push(b.last())));
        }
    }
}

/// Only the empty sequence has no lines.
pub proof fn lemma_no_lines_iff_empty(s: Seq<char>)
    ensures
        lines_of(s).len() == 0 <==> s.len() == 0,
{
    lemma_split_on_shape(s, '\n');
    if s.len() > 0 {
        lemma_split_on_shape(s.drop_last(), '\n');
    }
}

/// Splits `text` into its lines.
pub fn lines(text: &str) -> (found: Vec<String>)
    ensures
        found.deep_view() == lines_of(text@),
{
    let mut found: Vec<String> = Vec::new();
    let mut piece = String::new();
    for c in it: text.chars()
        invariant
            it.seq() == text@,
            split_on(text@.take(it.index()), '\n').last() == piece@,
            split_on(text@.take(it.index()), '\n').drop_last().map_values(
                |piece: Seq<char>| strip_cr(piece),
            ) == found.deep_view(),
    {
        let ghost before = split_on(text@.take(it.index()), '\n');
        let ghost upto = text@.take(it.index() + 1);
        proof {
            assert(upto.drop_last() == text@.take(it.index()));
            assert(upto.last() == c);
            lemma_split_on_shape(upto.drop_last(), '\n');
        }
        if c == '\n' {
            match piece.pop() {
                Some(last) => {
                    if last != '\r' {
                        piece.push(last);
                    }
                },
                None => {},
            }
            assert(piece@ == strip_cr(before.last()));
            found.push(piece);
            piece = String::new();
            proof {
                let after = split_on(upto, '\n');
                assert(after.drop_last() == before);
                assert(before == before.drop_last().push(before.last()));
                assert(before.map_values(|piece: Seq<char>| strip_cr(piece))
                    == before.drop_last().map_values(|piece: Seq<char>| strip_cr(piece)).push(
                    strip_cr(before.last()),
                ));
                assert(found.deep_view() == after.drop_last().map_values(
                    |piece: Seq<char>| strip_cr(piece),
                ));
            }
        } else {
            piece.push(c);
            proof {
                let after = split_on(upto, '\n');
                assert(after.drop_last() == before.drop_last());
            }
        }
    }
    proof {
        assert(text@.take(text@.len() as int) == text@);
    }
    if !piece.as_str().is_empty() {
        found.push(piece);
    }
    found
}

/// The characters of a text.
pub(crate) fn to_chars(text: &str) -> (chars: Vec<char>)
    ensures
        chars@ == text@,
{
    let mut chars: Vec<char> = Vec::new();
    for c in it: text.chars()
        invariant
            it.seq() == text@,
            chars@ == text@.take(it.index()),
    {
        chars.push(c);
        assert(text@.take(it.index() + 1) == text@.take(it.index()).push(c));
    }
    assert(text@.take(text@.len() as int) == text@);
    chars
}

/// The text that a range of characters spells.
pub(crate) fn to_text(chars: &Vec<char>, from: usize, to: usize) -> (text: String)
    requires
        from <= to <= chars.len(),
    ensures
        text@ == chars@.subrange(from as int, to as int),
{
    let mut text = String::new();
    let mut i: usize = from;
    while i < to
        invariant
            from <= i <= to <= chars.len(),
            text@ == chars@.subrange(from as int, i as int),
        decreases to - i,
    {
        text.push(chars[i]);
        assert(chars@.subrange(from as int, i + 1) == chars@.subrange(from as int, i as int).push(
            chars@[i as int],
        ));
        i += 1;
    }
    text
}

/// Whether `pattern`, which is not empty, stands in `s` at position `i`.
pub open spec fn occurs_at(s: Seq<char>, pattern: Seq<char>, i: int) -> bool {
    pattern.len() > 0 && 0 <= i && i + pattern.len() <= s.len() && s.subrange(
        i,
        i + pattern.len(),
    ) == pattern
}

/// Whether `pattern`, which is not empty, stands somewhere in `s`.
pub open spec fn occurs(s: Seq<char>, pattern: Seq<char>) -> bool {
    exists|i: int| occurs_at(s, pattern, i)
}

/// What is left of `s` from position `from` on once every occurrence of
/// `pattern` is replaced by `with`, the occurrences taken from the left and
/// none of them overlapping another.
pub open spec fn replaced_from(s: Seq<char>, pattern: Seq<char>, with: Seq<char>, from: int) -> Seq<
    char,
>
    decreases s.len() - from,
{
    if from < 0 || from >= s.len() {
        Seq::<char>::empty()
    } else if occurs_at(s, pattern, from) {
        with + replaced_from(s, pattern, with, from + pattern.len())
    } else {
        seq![s[from]] + replaced_from(s, pattern, with, from + 1)
    }
}

/// `s` with every occurrence of `pattern` replaced by `with`. An empty pattern
/// occurs nowhere.
pub open spec fn replaced(s: Seq<char>, pattern: Seq<char>, with: Seq<char>) -> Seq<char> {
    replaced_from(s, pattern, with, 0)
}

fn stands_at(chars: &Vec<char>, pattern: &Vec<char>, at: usize) -> (found: bool)
    requires
        at <= chars.len(),
    ensures
        found == occurs_at(chars@, pattern@, at as int),
{
    if pattern.len() == 0 || pattern.len() > chars.len() - at {
        return false;
    }
    let mut k: usize = 0;
    while k < pattern.len()
        invariant
            k <= pattern.len(),
            at + pattern.len() <= chars.len(),
            forall|j: int| 0 <= j < k ==> chars@[at + j] == pattern@[j],
        decreases pattern.len() - k,
    {
        if chars[at + k] != pattern[k] {
            assert(chars@.subrange(at as int, at + pattern.len())[k as int] != pattern@[k as int]);
            return false;
        }
        k += 1;
    }
    assert(chars@.subrange(at as int, at + pattern.len()) == pattern@);
    true
}

/// Whether `pattern` stands somewhere in `text`.
pub fn contains(text: &str, pattern: &str) -> (found: bool)
    ensures
        found == occurs(text@, pattern@),
{
    let chars = to_chars(text);
    let sought = to_chars(pattern);
    let mut i: usize = 0;
    while i < chars.len()
        invariant
            i <= chars.len(),
            chars@ == text@,
            sought@ == pattern@,
            forall|j: int| 0 <= j < i ==> !occurs_at(chars@, sought@, j),
        decreases chars.len() - i,
    {
        if stands_at(&chars, &sought, i) {
            return true;
        }
        i += 1;
    }
    false
}

/// Whether `text` ends with `suffix`.
pub fn ends_with(text: &str, suffix: &str) -> (found: bool)
    ensures
        found == suffix@.is_suffix_of(text@),
{
    let chars = to_chars(text);
    let end = to_chars(suffix);
    if end.len() > chars.len() {
        return false;
    }
    if end.len() == 0 {
        assert(chars@.subrange(chars.len() as int, chars.len() as int) == end@);
        return true;
    }
    stands_at(&chars, &end, chars.len() - end.len())
}

/// Replaces every occurrence of `pattern` in `text` by `with`.
pub fn replace(text: &str, pattern: &str, with: &str) -> (result: String)
    ensures
        result@ == replaced(text@, pattern@, with@),
{
    let chars = to_chars(text);
    let sought = to_chars(pattern);
    let mut result = String::new();
    let mut i: usize = 0;
    while i < chars.len()
        invariant
            i <= chars.len(),
            chars@ == text@,
            sought@ == pattern@,
            replaced(text@, pattern@, with@) == result@ + replaced_from(
                chars@,
                sought@,
                with@,
                i as int,
            ),
        decreases chars.len() - i,
    {
        let ghost before = result@;
        if stands_at(&chars, &sought, i) {
            result.append(with);
            assert(before + (with@ + replaced_from(chars@, sought@, with@, i + sought.len()))
                == result@ + replaced_from(chars@, sought@, with@, i + sought.len()));
            i += sought.len();
        } else {
            result.push(chars[i]);
            assert(before + (seq![chars@[i as int]] + replaced_from(chars@, sought@, with@, i + 1))
                == result@ + replaced_from(chars@, sought@, with@, i + 1));
            i += 1;
        }
    }
    assert(result@ + Seq::<char>::empty() == result@);
    result
}

/// The texts with `between` between each two of them.
pub open spec fn joined(texts: Seq<Seq<char>>, between: Seq<char>) -> Seq<char>
    decreases texts.len(),
{
    if texts.len() == 0 {
        Seq::<char>::empty()
    } else if texts.len() == 1 {
        texts[0]
    } else {
        joined(texts.drop_last(), between) + between + texts.last()
    }
}

/// Joining the pieces of a sequence with the separator gives the sequence
/// back.
pub proof fn lemma_joined_split(s: Seq<char>, sep: char)
    ensures
        joined(split_on(s, sep), seq![sep]) == s,
    decreases s.len(),
{
    if s.len() == 0 {
        assert(s == Seq::<char>::empty());
    } else {
        let before = split_on(s.drop_last(), sep);
        lemma_joined_split(s.drop_last(), sep);
        lemma_split_on_shape(s.drop_last(), sep);
        assert(s == s.drop_last().push(s.last()));
        if s.last() == sep {
            let after = before.push(Seq::<char>::empty());
            assert(after.drop_last() == before);
            assert(joined(before, seq![sep]) + seq![sep] + Seq::<char>::empty() == s);
        } else {
            let grown = before.last().push(s.last());
            let after = before.drop_last().push(grown);
            assert(after.drop_last() == before.drop_last());
            if before.len() == 1 {
                assert(after[0] == grown);
            } else {
                assert(joined(before.drop_last(), seq![sep]) + seq![sep] + grown == (joined(
                    before.drop_last(),
                    seq![sep],
                ) + seq![sep] + before.last()).push(s.last()));
            }
        }
    }
}

/// Joins the texts with `between` between each two of them.
pub fn join(texts: &Vec<String>, between: &str) -> (text: String)
    ensures
        text@ == joined(texts.deep_view(), between@),
{
    let ghost all = texts.deep_view();
    let mut text = String::new();
    let mut i: usize = 0;
    while i < texts.len()
        invariant
            i <= texts.len(),
            all == texts.deep_view(),
            text@ == joined(all.take(i as int), between@),
        decreases texts.len() - i,
    {
        proof {
            assert(all.take(i + 1).drop_last() == all.take(i as int));
            assert(all.take(i + 1).last() == texts[i as int]@);
        }
        if i > 0 {
            text.append(between);
        }
        text.append(texts[i].as_str());
        proof {
            if i == 0 {
                assert(joined(all.take(0), between@) == Seq::<char>::empty());
                assert(text@ == texts[i as int]@);
            }
        }
        i += 1;
    }
    assert(all.take(texts.len() as int) == all);
    text
}

} // verus!
