//! The version ledger: queries over the markers found at the current
//! commit, and the selection of tag references that belong to it.

use vstd::prelude::*;
use crate::marker::{marker_name_of, marker_string, Tag};
use crate::marker::lemma_marker_round_trip;

verus! {

/// The marker strings of a list of tags.
pub open spec fn tag_views(tags: Seq<Tag>) -> Seq<Seq<char>> {
    tags.map_values(|t: Tag| t@)
}

/// Ledger query: some marker among `markers` yields `name` as the part
/// before its first `@`.
pub open spec fn already_deployed(markers: Seq<Seq<char>>, name: Seq<char>) -> bool {
    exists|i: int| 0 <= i < markers.len() && marker_name_of(#[trigger] markers[i]) == name
}

/// Law: the ledger query finds a recorded marker. Once `name@version`
/// stands among the markers at the current commit, the query for `name`
/// answers true — so a later run at the same commit, unless forced,
/// aborts at the idempotency check instead of publishing again.
pub proof fn lemma_recorded_marker_is_found(
    markers: Seq<Seq<char>>,
    name: Seq<char>,
    version: Seq<char>,
)
    requires
        !name.contains('@'),
        markers.contains(marker_string(name, version)),
    ensures
        already_deployed(markers, name),
{
    let i = choose|i: int| 0 <= i < markers.len() && markers[i] == marker_string(name, version);
    lemma_marker_round_trip(name, version);
    assert(marker_name_of(markers[i]) == name);
}

/// True exactly when some tag at the current commit is a marker for the
/// function called `name`.
pub fn is_already_deployed(tags: &Vec<Tag>, name: &str) -> (r: bool)
    ensures
        r == already_deployed(tag_views(tags@), name@),
{
    let target: String = name.to_owned();
    let mut i: usize = 0;
    while i < tags.len()
        invariant
            0 <= i <= tags@.len(),
            target@ == name@,
            forall|j: int| 0 <= j < i ==> marker_name_of(#[trigger] tag_views(tags@)[j]) != name@,
        decreases tags@.len() - i,
    {
        proof {
            assert(tag_views(tags@)[i as int] == tags@[i as int]@);
        }
        match tags[i].function_name() {
            Some(n) => {
                if n == target {
                    return true;
                }
            },
            None => {},
        }
        i += 1;
    }
    false
}

/// The marker a repository reference contributes to the ledger listing:
/// `Some` exactly when the reference is a tag, resolves to the head
/// commit, has a readable name, and that name carries the tag-namespace
/// prefix, which is stripped.
pub open spec fn head_tag_name(
    is_tag: bool,
    at_head: bool,
    name: Option<Seq<char>>,
) -> Option<Seq<char>> {
    match name {
        Some(n) => if is_tag && at_head && n.len() >= 10 && n.take(10) == "refs/tags/"@ {
            Some(n.skip(10))
        } else {
            None
        },
        None => None,
    }
}

/// Turn one repository reference, given as the plain facts the listing
/// reads of it, into the tag it contributes to the ledger listing.
pub fn tag_at_head(is_tag: bool, at_head: bool, name: Option<&str>) -> (r: Option<Tag>)
    ensures
        ({
            let m = head_tag_name(
                is_tag,
                at_head,
                match name {
                    Some(n) => Some(n@),
                    None => None,
                },
            );
            &&& (r is Some <==> m is Some)
            &&& (r matches Some(t) ==> m matches Some(s) && t@ == s)
        }),
{
    match name {
        Some(n) => {
            if !(is_tag && at_head) {
                return None;
            }
            let len: usize = n.unicode_len();
            if len < 10 {
                return None;
            }
            let prefix: &str = n.substring_char(0, 10);
            if prefix.to_owned() == String::from_str("refs/tags/") {
                Some(Tag::new(n.substring_char(10, len)))
            } else {
                None
            }
        },
        None => None,
    }
}

} // verus!
