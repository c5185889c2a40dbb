use navi::structures::cheat::{gen_key, Suggestion, VariableMap};
use navi::structures::finder::{Opts, SuggestionType};
use navi::structures::fnv::hash_line;

#[test]
fn hash_of_known_texts() {
    assert_eq!(hash_line(""), 0xcbf2_9ce4_8422_2325);
    assert_eq!(hash_line("a"), 0xaf63_dc4c_8601_ec8c);
    assert_eq!(hash_line("foobar"), 0x8594_4171_f739_67e8);
}

#[test]
fn key_is_the_hash_of_tags_semicolon_variable() {
    assert_eq!(gen_key("foo", "bar"), 0xaa71_c771_a87f_0ec1);
    assert_eq!(gen_key("foo", "bar"), hash_line("foo;bar"));
    assert_eq!(gen_key("git,ssh", "user"), 0xb5d7_df29_5ba6_0771);
    assert_eq!(gen_key("", ""), hash_line(";"));
}

#[test]
fn pairs_that_spell_the_same_text_share_a_key() {
    assert_eq!(gen_key("a;b", "c"), gen_key("a", "b;c"));
    assert_eq!(gen_key("a;b", "c"), 0x1f1e_a262_ffe9_588b);
}

#[test]
fn new_map_holds_nothing() {
    let map = VariableMap::new();
    assert!(map.get("git", "branch").is_none());
    assert!(map.get("", "").is_none());
    assert!(map.0.is_empty());
}

#[test]
fn inserted_suggestion_is_found() {
    let mut map = VariableMap::new();
    let opts = Opts { suggestion_type: SuggestionType::MultipleSelections, ..Opts::default() };
    let value: Suggestion = ("git branch".to_string(), Some(opts.clone()));
    assert_eq!(map.insert("git", "branch", value.clone()), None);
    assert_eq!(map.get("git", "branch"), Some(&value));
    assert_eq!(map.get("git", "branch").unwrap().1, Some(opts));
    assert!(map.get("git", "remote").is_none());
    assert!(map.get("branch", "git").is_none());
}

#[test]
fn insert_returns_what_was_kept_before() {
    let mut map = VariableMap::new();
    let first: Suggestion = ("ls".to_string(), None);
    let second: Suggestion = ("ls -la".to_string(), None);
    assert_eq!(map.insert("fs", "file", first.clone()), None);
    assert_eq!(map.insert("fs", "file", second.clone()), Some(first));
    assert_eq!(map.get("fs", "file"), Some(&second));
    assert_eq!(map.0.len(), 1);
}

#[test]
fn other_pairs_are_left_alone() {
    let mut map = VariableMap::new();
    let one: Suggestion = ("one".to_string(), None);
    let two: Suggestion = ("two".to_string(), None);
    map.insert("t", "x", one.clone());
    map.insert("t", "y", two.clone());
    assert_eq!(map.get("t", "x"), Some(&one));
    assert_eq!(map.get("t", "y"), Some(&two));
    let copy = map.clone();
    assert_eq!(copy.get("t", "x"), Some(&one));
}
