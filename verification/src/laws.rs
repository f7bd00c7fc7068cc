//! The engine's aggregate laws, stated over the scan's mathematical model
//! and proved once and for all.

use vstd::prelude::*;

use crate::engine::EntryModel;
use crate::engine::RecordModel;
use crate::engine::ScanMode;
use crate::engine::outcome_fn;
use crate::engine::spec_admits;
use crate::engine::spec_record;
use crate::engine::spec_scan;

verus! {

/// If applying `f` to some element of `s` yields a value, that value is in
/// `s.filter_map(f)`.
proof fn lemma_filter_map_covers<A, B>(s: Seq<A>, f: spec_fn(A) -> Option<B>, i: int)
    requires
        0 <= i < s.len(),
        f(s[i]) is Some,
    ensures
        s.filter_map(f).contains(f(s[i])->0),
    decreases s.len(),
{
    let rest = s.drop_last();
    if i == s.len() - 1 {
        match f(s.last()) {
            Some(b) => {
                assert(s.filter_map(f) == rest.filter_map(f) + seq![b]);
                assert(s.filter_map(f)[s.filter_map(f).len() - 1] == b);
            },
            None => {},
        }
    } else {
        lemma_filter_map_covers(rest, f, i);
        let b = f(s[i])->0;
        let k = choose|k: int| 0 <= k < rest.filter_map(f).len() && rest.filter_map(f)[k] == b;
        assert(s.filter_map(f)[k] == b);
    }
}

/// `filter_map` distributes over concatenation.
proof fn lemma_filter_map_add<A, B>(a: Seq<A>, b: Seq<A>, f: spec_fn(A) -> Option<B>)
    ensures
        (a + b).filter_map(f) == a.filter_map(f) + b.filter_map(f),
    decreases b.len(),
{
    if b.len() == 0 {
        assert(a + b =~= a);
        assert(b.filter_map(f) =~= Seq::<B>::empty());
        assert(a.filter_map(f) + b.filter_map(f) =~= a.filter_map(f));
    } else {
        lemma_filter_map_add(a, b.drop_last(), f);
        assert((a + b).drop_last() =~= a + b.drop_last());
        assert((a + b).last() == b.last());
        match f(b.last()) {
            Some(x) => {
                assert((a + b).filter_map(f) =~= a.filter_map(f) + b.filter_map(f));
            },
            None => {
                assert((a + b).filter_map(f) =~= a.filter_map(f) + b.filter_map(f));
            },
        }
    }
}

/// An empty enumeration — an empty directory, or a root path that does not
/// resolve at all — yields an empty result collection.
pub proof fn lemma_scan_of_nothing_is_empty(mode: ScanMode)
    ensures
        spec_scan(Seq::<EntryModel>::empty(), mode) == Seq::<RecordModel>::empty(),
{
}

/// The fingerprint depends on the bytes that were read, and on nothing
/// else: not the path, not the metadata, not the output mode.
pub proof fn lemma_hash_depends_on_content_only(
    e1: EntryModel,
    e2: EntryModel,
    m1: ScanMode,
    m2: ScanMode,
)
    requires
        e1.content == e2.content,
    ensures
        spec_record(e1, m1).content_hash == spec_record(e2, m2).content_hash,
{
}

/// In extended mode a record carries the stat values unchanged; when the
/// reported size agrees with the bytes that were read (that is, absent a
/// concurrent mutation), `size_bytes` is exactly the hashed byte count.
pub proof fn lemma_extended_mode_metadata(e: EntryModel)
    requires
        spec_admits(e, ScanMode::Extended),
    ensures
        spec_record(e, ScanMode::Extended).meta == e.meta,
        e.meta->0.size_bytes == e.content->0.len()
            ==> spec_record(e, ScanMode::Extended).meta->0.size_bytes == e.content->0.len(),
{
}

/// In minimal mode a record carries no metadata, whatever was stat-ed.
pub proof fn lemma_minimal_mode_no_metadata(e: EntryModel)
    ensures
        spec_record(e, ScanMode::Minimal).meta is None,
{
}

/// A skipped entry — not a regular file, unreadable, or missing its
/// metadata in extended mode — leaves no trace: the scan of the whole
/// enumeration equals the scan without that entry.
pub proof fn lemma_skipped_entry_excluded(es: Seq<EntryModel>, i: int, mode: ScanMode)
    requires
        0 <= i < es.len(),
        !spec_admits(es[i], mode),
    ensures
        spec_scan(es, mode) == spec_scan(es.remove(i), mode),
{
    let f = outcome_fn(mode);
    let a = es.take(i);
    let b = es.skip(i + 1);
    assert(es =~= a + seq![es[i]] + b);
    assert(es.remove(i) =~= a + b);
    lemma_filter_map_add(a + seq![es[i]], b, f);
    lemma_filter_map_add(a, seq![es[i]], f);
    lemma_filter_map_add(a, b, f);
    Seq::<EntryModel>::lemma_filter_map_singleton(es[i], f);
    assert(seq![es[i]].filter_map(f) =~= Seq::<RecordModel>::empty());
    assert(spec_scan(es, mode) =~= spec_scan(es.remove(i), mode));
}

/// Pairwise-distinct paths among enumerated entries.
pub open spec fn paths_distinct(es: Seq<EntryModel>) -> bool {
    forall|i: int, j: int| 0 <= i < j < es.len() ==> es[i].path != es[j].path
}

/// Pairwise-distinct paths among result records.
pub open spec fn record_paths_distinct(rs: Seq<RecordModel>) -> bool {
    forall|k: int, l: int| 0 <= k < l < rs.len() ==> rs[k].path != rs[l].path
}

/// Distinct input paths give distinct record paths: the result is keyed by
/// path.
pub proof fn lemma_scan_paths_distinct(es: Seq<EntryModel>, mode: ScanMode)
    requires
        paths_distinct(es),
    ensures
        record_paths_distinct(spec_scan(es, mode)),
    decreases es.len(),
{
    let f = outcome_fn(mode);
    let scan = spec_scan(es, mode);
    if es.len() == 0 {
        assert(scan =~= Seq::<RecordModel>::empty());
    } else {
        let rest = es.drop_last();
        assert(paths_distinct(rest));
        lemma_scan_paths_distinct(rest, mode);
        let scan_rest = spec_scan(rest, mode);
        match f(es.last()) {
            Some(x) => {
                assert(scan == scan_rest + seq![x]);
                assert(x.path == es[es.len() - 1].path);
                assert forall|k: int| 0 <= k < scan_rest.len() implies scan_rest[k].path
                    != x.path by {
                    assert(scan_rest.contains(scan_rest[k]));
                    rest.lemma_filter_map_contains(f, scan_rest[k]);
                    let t = choose|t: EntryModel|
                        #[trigger] rest.contains(t) && f(t) == Some(scan_rest[k]);
                    let j = choose|j: int| 0 <= j < rest.len() && rest[j] == t;
                    assert(es[j] == t);
                    assert(es[j].path != es[es.len() - 1].path);
                }
                assert forall|k: int, l: int| 0 <= k < l < scan.len() implies scan[k].path
                    != scan[l].path by {
                    if l < scan_rest.len() {
                        assert(scan[k] == scan_rest[k]);
                        assert(scan[l] == scan_rest[l]);
                    } else {
                        assert(scan[k] == scan_rest[k]);
                        assert(scan[l] == x);
                    }
                }
            },
            None => {
                assert(scan == scan_rest);
            },
        }
    }
}

/// Exactly one record per admitted entry: every admitted entry's record is
/// in the result, everything in the result is some admitted entry's record,
/// and — with distinct input paths — no two records share a path.
pub proof fn lemma_one_record_per_file(es: Seq<EntryModel>, mode: ScanMode)
    ensures
        forall|i: int|
            0 <= i < es.len() && #[trigger] spec_admits(es[i], mode) ==> spec_scan(
                es,
                mode,
            ).contains(spec_record(es[i], mode)),
        forall|k: int|
            0 <= k < spec_scan(es, mode).len() ==> exists|i: int|
                0 <= i < es.len() && spec_admits(#[trigger] es[i], mode) && #[trigger] spec_scan(
                    es,
                    mode,
                )[k] == spec_record(es[i], mode),
        paths_distinct(es) ==> record_paths_distinct(spec_scan(es, mode)),
{
    let f = outcome_fn(mode);
    let scan = spec_scan(es, mode);
    assert forall|i: int|
        0 <= i < es.len() && #[trigger] spec_admits(es[i], mode) implies scan.contains(
    spec_record(es[i], mode)) by {
        lemma_filter_map_covers(es, f, i);
    }
    assert forall|k: int| 0 <= k < scan.len() implies exists|i: int|
        0 <= i < es.len() && spec_admits(#[trigger] es[i], mode) && #[trigger] scan[k]
            == spec_record(es[i], mode) by {
        assert(scan.contains(scan[k]));
        es.lemma_filter_map_contains(f, scan[k]);
        let t = choose|t: EntryModel| #[trigger] es.contains(t) && f(t) == Some(scan[k]);
        let i = choose|i: int| 0 <= i < es.len() && es[i] == t;
        assert(spec_admits(es[i], mode) && scan[k] == spec_record(es[i], mode));
    }
    if paths_distinct(es) {
        lemma_scan_paths_distinct(es, mode);
    }
}

/// The records of a scan as a set, keyed by the entries alone.
pub open spec fn spec_record_set(es: Set<EntryModel>, mode: ScanMode) -> Set<RecordModel> {
    Set::new(
        |r: RecordModel|
            exists|e: EntryModel|
                #[trigger] es.contains(e) && spec_admits(e, mode) && r == spec_record(e, mode),
    )
}

/// As a set, the result is a function of the set of enumerated entries:
/// neither enumeration order nor worker completion order can change it.
pub proof fn lemma_scan_as_set(es: Seq<EntryModel>, mode: ScanMode)
    ensures
        spec_scan(es, mode).to_set() == spec_record_set(es.to_set(), mode),
{
    broadcast use vstd::set::group_set_axioms;

    let f = outcome_fn(mode);
    let lhs = spec_scan(es, mode).to_set();
    let rhs = spec_record_set(es.to_set(), mode);
    assert forall|r: RecordModel| lhs.contains(r) implies rhs.contains(r) by {
        es.lemma_filter_map_contains(f, r);
        let t = choose|t: EntryModel| #[trigger] es.contains(t) && f(t) == Some(r);
        assert(es.to_set().contains(t));
    }
    assert forall|r: RecordModel| rhs.contains(r) implies lhs.contains(r) by {
        let e = choose|e: EntryModel|
            #[trigger] es.to_set().contains(e) && spec_admits(e, mode) && r == spec_record(
                e,
                mode,
            );
        assert(es.contains(e));
        let i = choose|i: int| 0 <= i < es.len() && es[i] == e;
        lemma_filter_map_covers(es, f, i);
    }
    assert(lhs =~= rhs);
}

/// Scanning the same tree twice — the same entries, in whatever order the
/// walk or the workers hand them over — yields the same result set.
pub proof fn lemma_scan_set_deterministic(e1: Seq<EntryModel>, e2: Seq<EntryModel>, mode: ScanMode)
    requires
        e1.to_set() == e2.to_set(),
    ensures
        spec_scan(e1, mode).to_set() == spec_scan(e2, mode).to_set(),
{
    lemma_scan_as_set(e1, mode);
    lemma_scan_as_set(e2, mode);
}

} // verus!
