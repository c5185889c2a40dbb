//! What the address of a repository of cheat sheets says.

use crate::text::{contains, occurs, replace, replaced, split, split_on};
use vstd::prelude::*;

verus! {

/// The address to clone from: the one given where it names a scheme or a
/// user at a host, else the repository of that name on GitHub.
pub open spec fn actual_uri(uri: Seq<char>) -> Seq<char> {
    if occurs(uri, "://"@) || occurs(uri, "@"@) {
        uri
    } else {
        "https://github.com/"@ + uri
    }
}

/// The parts of the address between its slashes and colons.
pub open spec fn uri_parts(uri: Seq<char>) -> Seq<Seq<char>> {
    split_on(replaced(actual_uri(uri), ":"@, "/"@), '/')
}

/// The owner of the repository: the part before the last, or nothing where
/// the address has a single part.
pub open spec fn user_of(uri: Seq<char>) -> Seq<char> {
    let parts = uri_parts(uri);
    if parts.len() >= 2 {
        parts[parts.len() - 2]
    } else {
        Seq::<char>::empty()
    }
}

/// The name of the repository: the last part without `.git`.
pub open spec fn repo_of(uri: Seq<char>) -> Seq<char> {
    replaced(uri_parts(uri).last(), ".git"@, ""@)
}

/// Reads an address or a short name of a repository: the address to clone
/// from, the owner and the name.
pub fn meta(uri: &str) -> (found: (String, String, String))
    ensures
        found.0@ == actual_uri(uri@),
        found.1@ == user_of(uri@),
        found.2@ == repo_of(uri@),
{
    let actual = if contains(uri, "://") || contains(uri, "@") {
        uri.to_owned()
    } else {
        let mut address = "https://github.com/".to_owned();
        address.append(uri);
        address
    };
    let slashed = replace(actual.as_str(), ":", "/");
    let parts = split(slashed.as_str(), '/');
    proof {
        crate::text::lemma_split_on_shape(slashed@, '/');
        assert(forall|i: int|
            0 <= i < parts.len() ==> #[trigger] parts.deep_view()[i] == parts[i]@);
    }
    let user = if parts.len() >= 2 {
        parts[parts.len() - 2].clone()
    } else {
        String::new()
    };
    let repo = replace(parts[parts.len() - 1].as_str(), ".git", "");
    (actual, user, repo)
}

} // verus!
