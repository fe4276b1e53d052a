//! Garbage collection of stale published versions.
//!
//! After a publish, every other published version of the function whose
//! identifier is purely numeric is a candidate for deletion; symbolic
//! aliases and the version just published are never touched. Candidates
//! are deleted one at a time, and a failure on one candidate never stops
//! the others: it is captured per item in the report.

use vstd::prelude::*;

verus! {

/// One published version of a function as the runtime reports it.
/// Either field may be missing from the runtime's answer; such an entry
/// is skipped.
#[derive(Debug)]
pub struct PublishedVersion {
    pub version: Option<String>,
    pub last_modified: Option<String>,
}

/// A deletion that failed: the version it targeted and the reason.
#[derive(Debug)]
pub struct DeleteFailure {
    pub version: String,
    pub reason: String,
}

/// Report of one garbage-collection pass: which versions were deleted
/// and, per failed candidate, why the deletion failed.
#[derive(Debug)]
pub struct RemoveOldVersionsResult {
    pub deleted_versions: Vec<String>,
    pub failures: Vec<DeleteFailure>,
}

/// A candidate's `last modified` timestamp did not parse; the pass stops
/// with this error, as nothing was decided about the remaining entries.
#[derive(Debug)]
pub struct TimestampParseError {
    pub last_modified: String,
}

/// A version identifier eligible for garbage collection is purely
/// numeric: one or more decimal digits. Symbolic aliases are not.
pub open spec fn is_numeric_id(s: Seq<char>) -> bool {
    s.len() > 0 && forall|i: int| 0 <= i < s.len() ==> '0' <= #[trigger] s[i] && s[i] <= '9'
}

/// The epoch seconds a runtime `last modified` timestamp encodes, if the
/// string parses; a name for what the timestamp parser returns.
pub uninterp spec fn timestamp_seconds(s: Seq<char>) -> Option<i64>;

/// Relies on regex: the anchored pattern `^[0-9]+$` handed to
/// `regex::Regex::is_match` matches exactly the nonempty strings of
/// ASCII decimal digits.
#[verifier::external_body]
fn is_numeric_version(s: &str) -> (r: bool)
    ensures
        r == is_numeric_id(s@),
{
    regex::Regex::new("^[0-9]+$").unwrap().is_match(s)
}

/// Relies on chrono: `DateTime::parse_from_str` with the runtime's
/// timestamp format, and `DateTime::timestamp`. The offset is part of
/// the string, so the epoch seconds depend on the string alone.
#[verifier::external_body]
fn parse_last_modified(s: &str) -> (r: Option<i64>)
    ensures
        r == timestamp_seconds(s@),
{
    match chrono::DateTime::parse_from_str(s, "%Y-%m-%dT%H:%M:%S.%3f%z") {
        Ok(t) => Some(t.timestamp()),
        Err(_) => None,
    }
}

/// Relies on chrono's `Utc::now` and `DateTime::timestamp`. The clock
/// depends on the environment, so nothing is stated of the value.
#[verifier::external_body]
fn now_epoch_seconds() -> i64 {
    chrono::Utc::now().timestamp()
}

/// The garbage-collection plan over the runtime's version list: in
/// order, every version identifier that is numeric, differs from `keep`,
/// and was last modified at or before `now`. The first such candidate
/// whose timestamp does not parse stops the pass with that timestamp;
/// entries that are filtered out earlier are never parsed.
pub open spec fn gc_plan(
    entries: Seq<PublishedVersion>,
    keep: Seq<char>,
    now: i64,
) -> Result<Seq<Seq<char>>, Seq<char>>
    decreases entries.len(),
{
    if entries.len() == 0 {
        Ok(Seq::empty())
    } else {
        let rest = entries.drop_first();
        match (entries[0].version, entries[0].last_modified) {
            (Some(v), Some(lm)) => if is_numeric_id(v@) && v@ != keep {
                match timestamp_seconds(lm@) {
                    Some(ts) => if now >= ts {
                        match gc_plan(rest, keep, now) {
                            Ok(tail) => Ok(seq![v@] + tail),
                            Err(e) => Err(e),
                        }
                    } else {
                        gc_plan(rest, keep, now)
                    },
                    None => Err(lm@),
                }
            } else {
                gc_plan(rest, keep, now)
            },
            _ => gc_plan(rest, keep, now),
        }
    }
}

/// An entry the plan targets: both fields present, identifier numeric
/// and not the keep-version, timestamp parsed and not after `now`.
pub open spec fn eligible(e: PublishedVersion, keep: Seq<char>, now: i64) -> bool {
    &&& e.version is Some
    &&& e.last_modified is Some
    &&& is_numeric_id(e.version->0@)
    &&& e.version->0@ != keep
    &&& timestamp_seconds(e.last_modified->0@) is Some
    &&& now >= timestamp_seconds(e.last_modified->0@)->0
}

/// Law: when the pass completes, it targets exactly the right versions.
/// Every candidate is numeric and differs from the keep-version, and
/// every eligible entry of the runtime's list is among the candidates.
pub proof fn lemma_gc_plan_targets(entries: Seq<PublishedVersion>, keep: Seq<char>, now: i64)
    ensures
        gc_plan(entries, keep, now) matches Ok(c) ==> {
            &&& forall|i: int| 0 <= i < c.len() ==> is_numeric_id(#[trigger] c[i]) && c[i] != keep
            &&& forall|j: int| 0 <= j < entries.len() && eligible(#[trigger] entries[j], keep, now)
                ==> c.contains(entries[j].version->0@)
        },
    decreases entries.len(),
{
    if entries.len() > 0 {
        let rest = entries.drop_first();
        lemma_gc_plan_targets(rest, keep, now);
        if gc_plan(entries, keep, now) is Ok {
            let c = gc_plan(entries, keep, now)->Ok_0;
            let tail = gc_plan(rest, keep, now)->Ok_0;
            assert forall|j: int|
                0 <= j < entries.len() && eligible(#[trigger] entries[j], keep, now)
                    implies c.contains(entries[j].version->0@) by {
                if j == 0 {
                    assert(c[0] == entries[0].version->0@);
                } else {
                    assert(rest[j - 1] == entries[j]);
                    assert(tail.contains(entries[j].version->0@));
                    let k = choose|k: int|
                        0 <= k < tail.len() && tail[k] == entries[j].version->0@;
                    if eligible(entries[0], keep, now) {
                        assert(c[k + 1] == tail[k]);
                    } else {
                        assert(c[k] == tail[k]);
                    }
                }
            }
        }
    }
}

/// How an executable planning result corresponds to the plan.
pub open spec fn plan_matches(
    r: Result<Vec<String>, TimestampParseError>,
    p: Result<Seq<Seq<char>>, Seq<char>>,
) -> bool {
    match r {
        Ok(c) => p matches Ok(s) && c.deep_view() == s,
        Err(e) => p matches Err(lm) && e.last_modified@ == lm,
    }
}

/// Decide, against the clock value `now`, which published versions this
/// pass will try to delete.
pub fn gc_candidates(entries: &Vec<PublishedVersion>, keep: &str, now: i64) -> (r: Result<
    Vec<String>,
    TimestampParseError,
>)
    ensures
        plan_matches(r, gc_plan(entries@, keep@, now)),
{
    let keep_s: String = keep.to_owned();
    let mut out: Vec<String> = Vec::new();
    let mut i: usize = 0;
    proof {
        assert(entries@.skip(0) =~= entries@);
        assert(out.deep_view() =~= Seq::<Seq<char>>::empty());
        if gc_plan(entries@, keep@, now) is Ok {
            let t = gc_plan(entries@, keep@, now)->Ok_0;
            assert(out.deep_view() + t =~= t);
        }
    }
    while i < entries.len()
        invariant
            0 <= i <= entries@.len(),
            keep_s@ == keep@,
            gc_plan(entries@, keep@, now) == (match gc_plan(entries@.skip(i as int), keep@, now) {
                Ok(tail) => Ok::<Seq<Seq<char>>, Seq<char>>(out.deep_view() + tail),
                Err(e) => Err::<Seq<Seq<char>>, Seq<char>>(e),
            }),
        decreases entries@.len() - i,
    {
        proof {
            assert(entries@.skip(i as int)[0] == entries@[i as int]);
            assert(entries@.skip(i as int).drop_first() =~= entries@.skip(i as int + 1));
        }
        let e = &entries[i];
        match (e.version.as_ref(), e.last_modified.as_ref()) {
            (Some(v), Some(lm)) => {
                if is_numeric_version(v.as_str()) && !(*v == keep_s) {
                    match parse_last_modified(lm.as_str()) {
                        Some(ts) => {
                            if now >= ts {
                                let ghost pre = out.deep_view();
                                out.push(v.clone());
                                proof {
                                    assert(out.deep_view() =~= pre + seq![v@]);
                                    if gc_plan(entries@.skip(i as int + 1), keep@, now) is Ok {
                                        let tail = gc_plan(
                                            entries@.skip(i as int + 1),
                                            keep@,
                                            now,
                                        )->Ok_0;
                                        assert(pre + (seq![v@] + tail) =~= (pre + seq![v@])
                                            + tail);
                                    }
                                }
                            }
                        },
                        None => {
                            return Err(TimestampParseError { last_modified: lm.clone() });
                        },
                    }
                }
            },
            _ => {},
        }
        i += 1;
    }
    proof {
        assert(entries@.skip(entries@.len() as int) =~= Seq::<PublishedVersion>::empty());
        assert(out.deep_view() + Seq::<Seq<char>>::empty() =~= out.deep_view());
    }
    Ok(out)
}

/// Decide which published versions this pass will try to delete,
/// comparing each candidate's timestamp against the current clock.
pub fn plan_removals(entries: &Vec<PublishedVersion>, keep: &str) -> (r: Result<
    Vec<String>,
    TimestampParseError,
>)
    ensures
        exists|now: i64| plan_matches(r, #[trigger] gc_plan(entries@, keep@, now)),
{
    let now = now_epoch_seconds();
    let r = gc_candidates(entries, keep, now);
    proof {
        assert(plan_matches(r, gc_plan(entries@, keep@, now)));
    }
    r
}

/// Versions whose deletion succeeded, in order.
pub open spec fn deleted_of(cands: Seq<String>, outs: Seq<Result<(), String>>) -> Seq<Seq<char>>
    decreases cands.len(),
{
    if cands.len() == 0 || outs.len() == 0 {
        Seq::empty()
    } else {
        let rest = deleted_of(cands.drop_first(), outs.drop_first());
        if outs[0] is Ok {
            seq![cands[0]@] + rest
        } else {
            rest
        }
    }
}

/// Failed deletions, in order: the version and the reason.
pub open spec fn failures_of(cands: Seq<String>, outs: Seq<Result<(), String>>) -> Seq<
    (Seq<char>, Seq<char>),
>
    decreases cands.len(),
{
    if cands.len() == 0 || outs.len() == 0 {
        Seq::empty()
    } else {
        let rest = failures_of(cands.drop_first(), outs.drop_first());
        match outs[0] {
            Ok(u) => rest,
            Err(reason) => seq![(cands[0]@, reason@)] + rest,
        }
    }
}

/// The view of a failure list: version and reason per item.
pub open spec fn failure_views(fs: Seq<DeleteFailure>) -> Seq<(Seq<char>, Seq<char>)> {
    fs.map_values(|f: DeleteFailure| (f.version@, f.reason@))
}

/// Fold the per-candidate delete outcomes into the report. Failure is
/// isolated per item: every candidate's outcome is accounted for, either
/// among the deleted versions or among the failures, so one failed
/// deletion never hides the candidates after it.
pub fn apply_delete_outcomes(candidates: &Vec<String>, outcomes: &Vec<Result<(), String>>) -> (r:
    RemoveOldVersionsResult)
    requires
        candidates@.len() == outcomes@.len(),
    ensures
        r.deleted_versions.deep_view() == deleted_of(candidates@, outcomes@),
        failure_views(r.failures@) == failures_of(candidates@, outcomes@),
        r.deleted_versions@.len() + r.failures@.len() == candidates@.len(),
{
    let mut deleted: Vec<String> = Vec::new();
    let mut failures: Vec<DeleteFailure> = Vec::new();
    let mut i: usize = 0;
    proof {
        assert(candidates@.skip(0) =~= candidates@);
        assert(outcomes@.skip(0) =~= outcomes@);
        assert(deleted.deep_view() =~= Seq::<Seq<char>>::empty());
        assert(failure_views(failures@) =~= Seq::<(Seq<char>, Seq<char>)>::empty());
        assert(deleted.deep_view() + deleted_of(candidates@, outcomes@) =~= deleted_of(
            candidates@,
            outcomes@,
        ));
        assert(failure_views(failures@) + failures_of(candidates@, outcomes@) =~= failures_of(
            candidates@,
            outcomes@,
        ));
    }
    while i < candidates.len()
        invariant
            0 <= i <= candidates@.len(),
            candidates@.len() == outcomes@.len(),
            deleted@.len() + failures@.len() == i,
            deleted_of(candidates@, outcomes@) == deleted.deep_view() + deleted_of(
                candidates@.skip(i as int),
                outcomes@.skip(i as int),
            ),
            failures_of(candidates@, outcomes@) == failure_views(failures@) + failures_of(
                candidates@.skip(i as int),
                outcomes@.skip(i as int),
            ),
        decreases candidates@.len() - i,
    {
        proof {
            assert(candidates@.skip(i as int)[0] == candidates@[i as int]);
            assert(outcomes@.skip(i as int)[0] == outcomes@[i as int]);
            assert(candidates@.skip(i as int).drop_first() =~= candidates@.skip(i as int + 1));
            assert(outcomes@.skip(i as int).drop_first() =~= outcomes@.skip(i as int + 1));
        }
        let ghost pre_deleted = deleted.deep_view();
        let ghost pre_failures = failure_views(failures@);
        match &outcomes[i] {
            Ok(u) => {
                deleted.push(candidates[i].clone());
                proof {
                    assert(deleted.deep_view() =~= pre_deleted + seq![candidates@[i as int]@]);
                    let tail = deleted_of(
                        candidates@.skip(i as int + 1),
                        outcomes@.skip(i as int + 1),
                    );
                    assert(pre_deleted + (seq![candidates@[i as int]@] + tail) =~= (pre_deleted
                        + seq![candidates@[i as int]@]) + tail);
                    assert(failure_views(failures@) == pre_failures);
                }
            },
            Err(reason) => {
                failures.push(
                    DeleteFailure { version: candidates[i].clone(), reason: reason.clone() },
                );
                proof {
                    assert(failure_views(failures@) =~= pre_failures + seq![
                        (candidates@[i as int]@, reason@),
                    ]);
                    let tail = failures_of(
                        candidates@.skip(i as int + 1),
                        outcomes@.skip(i as int + 1),
                    );
                    assert(pre_failures + (seq![(candidates@[i as int]@, reason@)] + tail) =~= (
                    pre_failures + seq![(candidates@[i as int]@, reason@)]) + tail);
                }
            },
        }
        i += 1;
    }
    proof {
        assert(candidates@.skip(candidates@.len() as int)
            =~= Seq::<String>::empty());
        assert(outcomes@.skip(outcomes@.len() as int) =~= Seq::<Result<(), String>>::empty());
        assert(deleted.deep_view() + Seq::<Seq<char>>::empty() =~= deleted.deep_view());
        assert(failure_views(failures@) + Seq::<(Seq<char>, Seq<char>)>::empty() =~= failure_views(
            failures@,
        ));
    }
    RemoveOldVersionsResult { deleted_versions: deleted, failures }
}

} // verus!
