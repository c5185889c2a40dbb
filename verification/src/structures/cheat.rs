//! The variable suggestions of a cheat sheet.

use crate::structures::finder::Opts;
use crate::structures::fnv::{hash_line, text_hash};
use std::collections::HashMap;
use vstd::prelude::*;

verus! {

/// What is suggested for a variable: the text to show, and how the finder is
/// set up to choose from it.
pub type Suggestion = (String, Option<Opts>);

/// The key under which the suggestion for `variable` in the cheats tagged
/// `tags` is kept: the hash of the two with a semicolon between them. Two
/// pairs that spell the same text, or whose texts hash alike, share a key.
pub open spec fn key_of(tags: Seq<char>, variable: Seq<char>) -> u64 {
    text_hash(tags + seq![';'] + variable)
}

/// What a map holds for a pair of tags and variable.
pub open spec fn lookup(map: Map<u64, Suggestion>, tags: Seq<char>, variable: Seq<char>) -> Option<
    Suggestion,
> {
    if map.contains_key(key_of(tags, variable)) {
        Some(map[key_of(tags, variable)])
    } else {
        None
    }
}

/// The map after a suggestion was put in for a pair of tags and variable.
pub open spec fn with_suggestion(
    map: Map<u64, Suggestion>,
    tags: Seq<char>,
    variable: Seq<char>,
    value: Suggestion,
) -> Map<u64, Suggestion> {
    map.insert(key_of(tags, variable), value)
}

/// The key for a pair of tags and variable.
pub fn gen_key(tags: &str, variable: &str) -> (key: u64)
    ensures
        key == key_of(tags@, variable@),
{
    let mut line = tags.to_owned();
    line.push(';');
    line.append(variable);
    assert(line@ == tags@ + seq![';'] + variable@);
    hash_line(line.as_str())
}

/// The suggestions of a cheat sheet, each kept under the key of its tags and
/// variable.
#[derive(Clone)]
pub struct VariableMap(pub HashMap<u64, Suggestion>);

impl View for VariableMap {
    type V = Map<u64, Suggestion>;

    open spec fn view(&self) -> Map<u64, Suggestion> {
        self.0@
    }
}

impl VariableMap {
    /// A map without suggestions.
    pub fn new() -> (map: Self)
        ensures
            map@ == Map::<u64, Suggestion>::empty(),
    {
        Self(HashMap::new())
    }

    /// Puts a suggestion in for a pair of tags and variable, and returns what
    /// was kept under its key before.
    pub fn insert(&mut self, tags: &str, variable: &str, value: Suggestion) -> (previous: Option<
        Suggestion,
    >)
        ensures
            final(self)@ == with_suggestion(old(self)@, tags@, variable@, value),
            previous == lookup(old(self)@, tags@, variable@),
    {
        self.0.insert(gen_key(tags, variable), value)
    }

    /// The suggestion kept for a pair of tags and variable.
    pub fn get(&self, tags: &str, variable: &str) -> (found: Option<&Suggestion>)
        ensures
            match lookup(self@, tags@, variable@) {
                Some(value) => found == Some(&value),
                None => found is None,
            },
    {
        let key = gen_key(tags, variable);
        self.0.get(&key)
    }
}

/// A suggestion that was put in for a pair is what a lookup of that pair
/// finds.
pub proof fn lemma_insert_then_get(
    map: Map<u64, Suggestion>,
    tags: Seq<char>,
    variable: Seq<char>,
    value: Suggestion,
)
    ensures
        lookup(with_suggestion(map, tags, variable, value), tags, variable) == Some(value),
{
}

/// A map without suggestions holds nothing for any pair.
pub proof fn lemma_get_in_empty(tags: Seq<char>, variable: Seq<char>)
    ensures
        lookup(Map::<u64, Suggestion>::empty(), tags, variable) is None,
{
}

/// Putting a suggestion in for one pair leaves what is found for every pair
/// with another key as it was; so a pair for which nothing was put in, and
/// whose key no other pair shares, is not found.
pub proof fn lemma_insert_keeps_other_keys(
    map: Map<u64, Suggestion>,
    tags: Seq<char>,
    variable: Seq<char>,
    value: Suggestion,
    other_tags: Seq<char>,
    other_variable: Seq<char>,
)
    requires
        key_of(other_tags, other_variable) != key_of(tags, variable),
    ensures
        lookup(with_suggestion(map, tags, variable, value), other_tags, other_variable) == lookup(
            map,
            other_tags,
            other_variable,
        ),
{
}

} // verus!
