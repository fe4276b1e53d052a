//! Deployment markers: the ledger entries of the version-control history.
//!
//! A marker is a tag string `name@version`. Splitting the string at its
//! first `@` recovers the function name and the published version.

use vstd::prelude::*;

verus! {

/// Index of the first `@` in `s`, or `s.len()` if there is none.
pub open spec fn first_at(s: Seq<char>) -> int
    decreases s.len(),
{
    if s.len() == 0 {
        0
    } else if s[0] == '@' {
        0
    } else {
        1 + first_at(s.drop_first())
    }
}

/// The function-name part of a marker string: everything before the
/// first `@`, or the whole string when it has no `@`.
pub open spec fn marker_name_of(s: Seq<char>) -> Seq<char> {
    s.take(first_at(s))
}

/// The version part of a marker string: everything after the first `@`,
/// or empty when it has no `@`.
pub open spec fn marker_version_of(s: Seq<char>) -> Seq<char> {
    if first_at(s) < s.len() {
        s.skip(first_at(s) + 1)
    } else {
        Seq::empty()
    }
}

/// The marker string that records `version` as published for `name`.
pub open spec fn marker_string(name: Seq<char>, version: Seq<char>) -> Seq<char> {
    name + seq!['@'] + version
}

proof fn lemma_first_at_found(s: Seq<char>, i: int)
    requires
        0 <= i < s.len(),
        s[i] == '@',
        forall|j: int| 0 <= j < i ==> s[j] != '@',
    ensures
        first_at(s) == i,
    decreases i,
{
    if i > 0 {
        assert(forall|j: int| 0 <= j < i - 1 ==> s.drop_first()[j] == s[j + 1]);
        lemma_first_at_found(s.drop_first(), i - 1);
    }
}

proof fn lemma_first_at_absent(s: Seq<char>)
    requires
        forall|j: int| 0 <= j < s.len() ==> s[j] != '@',
    ensures
        first_at(s) == s.len(),
    decreases s.len(),
{
    if s.len() != 0 {
        assert(forall|j: int| 0 <= j < s.len() - 1 ==> s.drop_first()[j] == s[j + 1]);
        lemma_first_at_absent(s.drop_first());
    }
}

/// Law: a marker round-trips. Recording `version` for a function `name`
/// that itself contains no `@` produces a string that splits back into
/// exactly that name and that version.
pub proof fn lemma_marker_round_trip(name: Seq<char>, version: Seq<char>)
    requires
        !name.contains('@'),
    ensures
        marker_name_of(marker_string(name, version)) == name,
        marker_version_of(marker_string(name, version)) == version,
{
    let s = marker_string(name, version);
    assert(s[name.len() as int] == '@');
    assert(forall|j: int| 0 <= j < name.len() ==> s[j] == name[j]);
    assert(forall|j: int| 0 <= j < name.len() ==> s[j] != '@');
    lemma_first_at_found(s, name.len() as int);
    assert(s.take(name.len() as int) =~= name);
    assert(s.skip(name.len() as int + 1) =~= version);
}

/// A tag of the version-control repository, by name. Tags created by the
/// orchestrator are markers of the form `name@version`, but any tag name
/// can be held.
#[derive(Debug)]
pub struct Tag(String);

impl View for Tag {
    type V = Seq<char>;

    closed spec fn view(&self) -> Seq<char> {
        self.0@
    }
}

impl Tag {
    pub fn new(s: &str) -> (r: Tag)
        ensures
            r@ == s@,
    {
        Tag(s.to_owned())
    }

    pub fn name(&self) -> (r: String)
        ensures
            r@ == self@,
    {
        self.0.clone()
    }

    /// The function name this tag is a marker for: the part before the
    /// first `@`. A tag name always has such a part, so the result is
    /// always `Some`; the option mirrors how callers consume it.
    pub fn function_name(&self) -> (r: Option<String>)
        ensures
            r matches Some(n) && n@ == marker_name_of(self@),
    {
        let len: usize = self.0.as_str().unicode_len();
        let mut i: usize = 0;
        while i < len
            invariant
                0 <= i <= len,
                len == self@.len(),
                forall|j: int| 0 <= j < i ==> self@[j] != '@',
            decreases len - i,
        {
            if self.0.as_str().get_char(i) == '@' {
                proof {
                    lemma_first_at_found(self@, i as int);
                }
                return Some(self.0.as_str().substring_char(0, i).to_owned());
            }
            i += 1;
        }
        proof {
            lemma_first_at_absent(self@);
            assert(self@.take(self@.len() as int) =~= self@);
        }
        Some(self.0.clone())
    }
}

} // verus!
