//! Which pages a navigation link stands for.

use crate::text::{begins_with, same_text};
use vstd::prelude::*;
use vstd::string::*;

verus! {

/// A pattern that a path is held against.
#[derive(Debug, Clone, Copy)]
pub enum MatchPath {
    /// The path itself, with or without a leading slash.
    Full(&'static str),
    /// Every path that begins with it, with or without a leading slash.
    Start(&'static str),
}

/// A path with a slash in front.
pub open spec fn slashed(p: Seq<char>) -> Seq<char> {
    "/"@ + p
}

impl MatchPath {
    /// Whether the pattern covers the path.
    pub open spec fn covers(self, path: Seq<char>) -> bool {
        match self {
            MatchPath::Full(p) => path == p@ || path == slashed(p@),
            MatchPath::Start(p) => p@.is_prefix_of(path) || slashed(p@).is_prefix_of(path),
        }
    }

    /// Checks whether the pattern covers the given path: `Full("forum")`
    /// covers `forum` and `/forum`, `Start("forum")` covers those and also
    /// `/forum/3`.
    pub fn matches(&self, path: &str) -> (r: bool)
        ensures
            r == self.covers(path@),
    {
        match self {
            MatchPath::Full(p) => {
                let with_slash = String::from_str("/").concat(p);
                same_text(path, p) || same_text(path, with_slash.as_str())
            },
            MatchPath::Start(p) => {
                let with_slash = String::from_str("/").concat(p);
                begins_with(path, p) || begins_with(path, with_slash.as_str())
            },
        }
    }
}

/// Whether one of the patterns covers the path.
pub open spec fn some_covers(patterns: Seq<MatchPath>, path: Seq<char>) -> bool {
    exists|i: int| 0 <= i < patterns.len() && (#[trigger] patterns[i]).covers(path)
}

/// Whether the path is one of those that a link is highlighted on.
pub fn any_matches(patterns: &[MatchPath], path: &str) -> (r: bool)
    ensures
        r == some_covers(patterns@, path@),
{
    let mut i: usize = 0;
    while i < patterns.len()
        invariant
            i <= patterns.len(),
            forall|j: int| 0 <= j < i ==> !(#[trigger] patterns@[j]).covers(path@),
        decreases patterns.len() - i,
    {
        if patterns[i].matches(path) {
            assert(patterns@[i as int].covers(path@));
            return true;
        }
        i += 1;
    }
    false
}

} // verus!
