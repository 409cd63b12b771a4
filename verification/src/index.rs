//! The project index: every record that was found, newest first, one per
//! project.

use vstd::prelude::*;
use crate::ide::IDEType;
use crate::recent_project::RecentProject;

verus! {

/// No record stands before one that was opened later.
pub open spec fn newest_first(s: Seq<RecentProject>) -> bool {
    forall|i: int, j: int| 0 <= i < j < s.len() ==> s[i].last_opened >= s[j].last_opened
}

/// No two records speak of the same project.
pub open spec fn distinct_projects(s: Seq<RecentProject>) -> bool {
    forall|i: int, j: int| 0 <= i < j < s.len() ==> s[i].key() != s[j].key()
}

/// Some record of `s` speaks of the project `key`.
pub open spec fn holds_project(s: Seq<RecentProject>, key: (Seq<char>, IDEType)) -> bool {
    exists|i: int| 0 <= i < s.len() && #[trigger] s[i].key() == key
}

/// Some record of `s` speaks of the same project as `p` and was opened at
/// least as late.
pub open spec fn covers(s: Seq<RecentProject>, p: RecentProject) -> bool {
    exists|j: int|
        0 <= j < s.len() && #[trigger] s[j].key() == p.key() && s[j].last_opened >= p.last_opened
}

/// Where a record opened at `opened` goes into `sorted`: directly behind the
/// last record that is at least as recent.
pub open spec fn insertion_point(sorted: Seq<RecentProject>, opened: i64) -> int
    decreases sorted.len(),
{
    if sorted.len() == 0 || sorted.last().last_opened >= opened {
        sorted.len() as int
    } else {
        insertion_point(sorted.drop_last(), opened)
    }
}

/// The records ordered by the time they were last opened, latest first.
/// Records opened at the same time keep the order in which they were found.
pub open spec fn by_recency(s: Seq<RecentProject>) -> Seq<RecentProject>
    decreases s.len(),
{
    if s.len() == 0 {
        s
    } else {
        let sorted = by_recency(s.drop_last());
        sorted.insert(insertion_point(sorted, s.last().last_opened), s.last())
    }
}

/// For each project the first of its records, in the order of `s`.
pub open spec fn first_per_project(s: Seq<RecentProject>) -> Seq<RecentProject>
    decreases s.len(),
{
    if s.len() == 0 {
        s
    } else {
        let kept = first_per_project(s.drop_last());
        if holds_project(kept, s.last().key()) {
            kept
        } else {
            kept.push(s.last())
        }
    }
}

/// The index of the records `s`: ordered by recency, then one per project.
pub open spec fn project_index(s: Seq<RecentProject>) -> Seq<RecentProject> {
    first_per_project(by_recency(s))
}

/// The insertion point lies within the sequence, behind every record that is
/// at least as recent and before every record behind it.
pub proof fn insertion_point_bounds(sorted: Seq<RecentProject>, opened: i64)
    ensures
        0 <= insertion_point(sorted, opened) <= sorted.len(),
        insertion_point(sorted, opened) > 0 ==> sorted[insertion_point(sorted, opened)
            - 1].last_opened >= opened,
        forall|j: int|
            insertion_point(sorted, opened) <= j < sorted.len() ==> sorted[j].last_opened < opened,
    decreases sorted.len(),
{
    if sorted.len() > 0 && sorted.last().last_opened < opened {
        let front = sorted.drop_last();
        insertion_point_bounds(front, opened);
        assert forall|j: int|
            insertion_point(sorted, opened) <= j < sorted.len() implies sorted[j].last_opened
            < opened by {
            if j < front.len() {
                assert(front[j] == sorted[j]);
            }
        }
    }
}

/// Ordering by recency rearranges the records and loses none.
pub proof fn by_recency_is_permutation(s: Seq<RecentProject>)
    ensures
        by_recency(s).to_multiset() == s.to_multiset(),
        by_recency(s).len() == s.len(),
    decreases s.len(),
{
    broadcast use vstd::seq_lib::to_multiset_build, vstd::seq_lib::to_multiset_insert;

    if s.len() > 0 {
        let front = s.drop_last();
        by_recency_is_permutation(front);
        let sorted = by_recency(front);
        insertion_point_bounds(sorted, s.last().last_opened);
        assert(s == front.push(s.last()));
    }
}

/// Ordering by recency keeps exactly the records it was given.
pub proof fn by_recency_same_records(s: Seq<RecentProject>, p: RecentProject)
    ensures
        by_recency(s).contains(p) <==> s.contains(p),
{
    by_recency_is_permutation(s);
    vstd::seq_lib::to_multiset_contains(by_recency(s), p);
    vstd::seq_lib::to_multiset_contains(s, p);
}

/// What `by_recency` returns is ordered newest first.
pub proof fn by_recency_is_ordered(s: Seq<RecentProject>)
    ensures
        newest_first(by_recency(s)),
    decreases s.len(),
{
    if s.len() > 0 {
        let sorted = by_recency(s.drop_last());
        by_recency_is_ordered(s.drop_last());
        let at = insertion_point(sorted, s.last().last_opened);
        insertion_point_bounds(sorted, s.last().last_opened);
        let out = sorted.insert(at, s.last());
        assert forall|i: int, j: int| 0 <= i < j < out.len() implies out[i].last_opened
            >= out[j].last_opened by {
            if j < at {
                assert(out[i] == sorted[i] && out[j] == sorted[j]);
            } else if j == at {
                assert(out[i] == sorted[i]);
                if i < at - 1 {
                    assert(sorted[i].last_opened >= sorted[at - 1].last_opened);
                }
            } else if i < at {
                assert(out[i] == sorted[i] && out[j] == sorted[j - 1]);
            } else if i == at {
                assert(out[j] == sorted[j - 1]);
            } else {
                assert(out[i] == sorted[i - 1] && out[j] == sorted[j - 1]);
            }
        }
    }
}

/// The records that were opened at the given time, in the order of `s`.
pub open spec fn opened_at_time(s: Seq<RecentProject>, time: i64) -> Seq<RecentProject> {
    s.filter(|p: RecentProject| p.last_opened == time)
}

proof fn none_opened_at_time(s: Seq<RecentProject>, time: i64)
    requires
        forall|i: int| 0 <= i < s.len() ==> (#[trigger] s[i]).last_opened != time,
    ensures
        opened_at_time(s, time).len() == 0,
    decreases s.len(),
{
    reveal(Seq::filter);
    if s.len() > 0 {
        let front = s.drop_last();
        assert forall|i: int| 0 <= i < front.len() implies (#[trigger] front[i]).last_opened
            != time by {
            assert(front[i] == s[i]);
        }
        none_opened_at_time(front, time);
        assert(s.last() == s[s.len() - 1]);
    }
}

/// Ordering by recency is stable: the records that were opened at one time
/// keep the order in which they were found.
pub proof fn by_recency_is_stable(s: Seq<RecentProject>, time: i64)
    ensures
        opened_at_time(by_recency(s), time) == opened_at_time(s, time),
    decreases s.len(),
{
    if s.len() > 0 {
        let front = s.drop_last();
        let found = s.last();
        by_recency_is_stable(front, time);
        let sorted = by_recency(front);
        let at = insertion_point(sorted, found.last_opened);
        insertion_point_bounds(sorted, found.last_opened);
        let at_time = |p: RecentProject| p.last_opened == time;
        let head = sorted.take(at);
        let tail = sorted.skip(at);
        assert(sorted.insert(at, found) =~= head.push(found) + tail);
        assert(sorted =~= head + tail);
        assert(s =~= front.push(found));
        Seq::filter_distributes_over_add(head.push(found), tail, at_time);
        Seq::filter_distributes_over_add(head, tail, at_time);
        head.lemma_filter_push(found, at_time);
        front.lemma_filter_push(found, at_time);
        if found.last_opened == time {
            assert forall|i: int| 0 <= i < tail.len() implies (#[trigger] tail[i]).last_opened
                != time by {
                assert(tail[i] == sorted[at + i]);
            }
            none_opened_at_time(tail, time);
            assert(tail.filter(at_time) =~= Seq::empty());
            assert(head.filter(at_time) + tail.filter(at_time) =~= head.filter(at_time));
            assert(head.filter(at_time).push(found) + tail.filter(at_time) =~= head.filter(
                at_time,
            ).push(found));
        }
    }
}

/// Records that are ordered newest first already stay as they are.
pub proof fn by_recency_keeps_ordered(s: Seq<RecentProject>)
    requires
        newest_first(s),
    ensures
        by_recency(s) == s,
    decreases s.len(),
{
    if s.len() > 0 {
        let front = s.drop_last();
        assert forall|i: int, j: int| 0 <= i < j < front.len() implies front[i].last_opened
            >= front[j].last_opened by {
            assert(front[i] == s[i] && front[j] == s[j]);
        }
        by_recency_keeps_ordered(front);
        if front.len() > 0 {
            assert(front.last() == s[s.len() - 2]);
        }
        assert(front.insert(front.len() as int, s.last()) =~= s);
    }
}

/// What `first_per_project` keeps are records of `s`, in the order of `s`: each
/// kept record is the first that `s` holds of its project.
pub proof fn first_per_project_keeps_first(s: Seq<RecentProject>, i: int)
    requires
        0 <= i < s.len(),
    ensures
        exists|j: int, f: int|
            0 <= j < first_per_project(s).len() && 0 <= f <= i && #[trigger] first_per_project(
                s,
            )[j] == #[trigger] s[f] && s[f].key() == s[i].key(),
    decreases s.len(),
{
    let front = s.drop_last();
    let kept = first_per_project(front);
    let out = first_per_project(s);
    if i < s.len() - 1 {
        first_per_project_keeps_first(front, i);
        let (j, f) = choose|j: int, f: int|
            0 <= j < kept.len() && 0 <= f <= i && #[trigger] kept[j] == #[trigger] front[f]
                && front[f].key() == front[i].key();
        assert(out[j] == s[f]);
    } else if holds_project(kept, s.last().key()) {
        let j = choose|j: int| 0 <= j < kept.len() && #[trigger] kept[j].key() == s.last().key();
        first_per_project_is_drawn(front, j);
        let f = choose|f: int| 0 <= f < front.len() && front[f] == kept[j];
        assert(out[j] == s[f]);
    } else {
        assert(out[kept.len() as int] == s[i]);
    }
}

/// Every record that `first_per_project` keeps is a record of `s`.
pub proof fn first_per_project_is_drawn(s: Seq<RecentProject>, j: int)
    requires
        0 <= j < first_per_project(s).len(),
    ensures
        first_per_project(s).len() <= s.len(),
        exists|f: int| 0 <= f < s.len() && s[f] == first_per_project(s)[j],
    decreases s.len(),
{
    let front = s.drop_last();
    let kept = first_per_project(front);
    if s.len() > 0 {
        if kept.len() > 0 {
            first_per_project_is_drawn(front, 0);
        }
        if j < kept.len() {
            first_per_project_is_drawn(front, j);
            let f = choose|f: int| 0 <= f < front.len() && front[f] == kept[j];
            assert(s[f] == first_per_project(s)[j]);
        } else {
            assert(s[s.len() - 1] == first_per_project(s)[j]);
        }
    }
}

/// What `first_per_project` keeps holds each project once.
pub proof fn first_per_project_is_distinct(s: Seq<RecentProject>)
    ensures
        distinct_projects(first_per_project(s)),
    decreases s.len(),
{
    if s.len() > 0 {
        let kept = first_per_project(s.drop_last());
        first_per_project_is_distinct(s.drop_last());
        let out = first_per_project(s);
        if !holds_project(kept, s.last().key()) {
            assert forall|i: int, j: int| 0 <= i < j < out.len() implies out[i].key()
                != out[j].key() by {
                if j < kept.len() {
                    assert(out[i] == kept[i] && out[j] == kept[j]);
                } else {
                    assert(out[i] == kept[i]);
                    assert(kept[i].key() != s.last().key());
                }
            }
        }
    }
}

/// Keeping the first record of each project keeps the order newest first.
pub proof fn first_per_project_stays_ordered(s: Seq<RecentProject>)
    requires
        newest_first(s),
    ensures
        newest_first(first_per_project(s)),
    decreases s.len(),
{
    if s.len() > 0 {
        let front = s.drop_last();
        let kept = first_per_project(front);
        assert forall|i: int, j: int| 0 <= i < j < front.len() implies front[i].last_opened
            >= front[j].last_opened by {
            assert(front[i] == s[i] && front[j] == s[j]);
        }
        first_per_project_stays_ordered(front);
        let out = first_per_project(s);
        if !holds_project(kept, s.last().key()) {
            assert forall|i: int, j: int| 0 <= i < j < out.len() implies out[i].last_opened
                >= out[j].last_opened by {
                if j < kept.len() {
                    assert(out[i] == kept[i] && out[j] == kept[j]);
                } else {
                    first_per_project_is_drawn(front, i);
                    let f = choose|f: int| 0 <= f < front.len() && front[f] == kept[i];
                    assert(s[f].last_opened >= s[s.len() - 1].last_opened);
                }
            }
        }
    }
}

/// Records that hold each project once already stay as they are.
pub proof fn first_per_project_keeps_distinct(s: Seq<RecentProject>)
    requires
        distinct_projects(s),
    ensures
        first_per_project(s) == s,
    decreases s.len(),
{
    if s.len() > 0 {
        let front = s.drop_last();
        assert forall|i: int, j: int| 0 <= i < j < front.len() implies front[i].key()
            != front[j].key() by {
            assert(front[i] == s[i] && front[j] == s[j]);
        }
        first_per_project_keeps_distinct(front);
        if holds_project(front, s.last().key()) {
            let i = choose|i: int| 0 <= i < front.len() && #[trigger] front[i].key() == s.last().key();
            assert(s[i].key() != s[s.len() - 1].key());
        }
        assert(front.push(s.last()) =~= s);
    }
}

/// The index is ordered newest first and holds each project once.
pub proof fn project_index_is_clean(s: Seq<RecentProject>)
    ensures
        newest_first(project_index(s)),
        distinct_projects(project_index(s)),
{
    by_recency_is_ordered(s);
    first_per_project_stays_ordered(by_recency(s));
    first_per_project_is_distinct(by_recency(s));
}

/// Indexing records that are ordered newest first and hold each project once
/// changes nothing.
pub proof fn project_index_of_clean(s: Seq<RecentProject>)
    requires
        newest_first(s),
        distinct_projects(s),
    ensures
        project_index(s) == s,
{
    by_recency_keeps_ordered(s);
    first_per_project_keeps_distinct(s);
}

/// Indexing is idempotent: the index of an index is that index.
pub proof fn project_index_is_idempotent(s: Seq<RecentProject>)
    ensures
        project_index(project_index(s)) == project_index(s),
{
    project_index_is_clean(s);
    project_index_of_clean(project_index(s));
}

/// Every record of the index is one of the records it was built from.
pub proof fn project_index_is_drawn(s: Seq<RecentProject>, j: int)
    requires
        0 <= j < project_index(s).len(),
    ensures
        s.contains(project_index(s)[j]),
{
    let sorted = by_recency(s);
    first_per_project_is_drawn(sorted, j);
    let f = choose|f: int| 0 <= f < sorted.len() && sorted[f] == project_index(s)[j];
    assert(sorted.contains(sorted[f]));
    by_recency_same_records(s, sorted[f]);
}

/// For every record that was found, in whatever order, the index holds a
/// record of the same project that was opened at least as late. As the index
/// holds each project once and only records that were found, the record it
/// holds for a project carries the latest time observed for it.
pub proof fn project_index_keeps_latest(s: Seq<RecentProject>, i: int)
    requires
        0 <= i < s.len(),
    ensures
        covers(project_index(s), s[i]),
{
    let sorted = by_recency(s);
    assert(s.contains(s[i]));
    by_recency_same_records(s, s[i]);
    let g = choose|g: int| 0 <= g < sorted.len() && sorted[g] == s[i];
    first_per_project_keeps_first(sorted, g);
    let (j, f) = choose|j: int, f: int|
        0 <= j < first_per_project(sorted).len() && 0 <= f <= g && #[trigger] first_per_project(
            sorted,
        )[j] == #[trigger] sorted[f] && sorted[f].key() == sorted[g].key();
    by_recency_is_ordered(s);
    assert(project_index(s)[j].key() == s[i].key());
}

/// Of two records of one project the index never keeps the one opened earlier.
pub proof fn project_index_drops_older(s: Seq<RecentProject>, older: int, newer: int, j: int)
    requires
        0 <= older < s.len(),
        0 <= newer < s.len(),
        s[older].key() == s[newer].key(),
        s[older].last_opened < s[newer].last_opened,
        0 <= j < project_index(s).len(),
        project_index(s)[j].key() == s[older].key(),
    ensures
        project_index(s)[j].last_opened >= s[newer].last_opened,
        project_index(s)[j].last_opened != s[older].last_opened,
{
    project_index_keeps_latest(s, newer);
    project_index_is_clean(s);
    let k = choose|k: int|
        0 <= k < project_index(s).len() && #[trigger] project_index(s)[k].key() == s[newer].key()
            && project_index(s)[k].last_opened >= s[newer].last_opened;
    assert(k == j);
}

/// Orders the records by the time they were last opened, latest first.
pub fn sort_by_recency(projects: Vec<RecentProject>) -> (sorted: Vec<RecentProject>)
    ensures
        sorted@ == by_recency(projects@),
{
    let ghost all = projects@;
    let mut sorted: Vec<RecentProject> = Vec::new();
    for p in it: projects
        invariant
            it.seq() == all,
            sorted@ == by_recency(all.take(it.index() as int)),
    {
        let ghost front = all.take(it.index() as int);
        let mut at: usize = sorted.len();
        assert(sorted@.take(at as int) == sorted@);
        while at > 0 && sorted[at - 1].last_opened < p.last_opened
            invariant
                at <= sorted.len(),
                insertion_point(sorted@, p.last_opened) == insertion_point(
                    sorted@.take(at as int),
                    p.last_opened,
                ),
            decreases at,
        {
            assert(sorted@.take(at as int).drop_last() == sorted@.take(at - 1));
            at -= 1;
        }
        proof {
            assert(all.take(it.index() + 1).drop_last() == front);
            assert(all.take(it.index() + 1).last() == p);
        }
        sorted.insert(at, p);
    }
    assert(all.take(all.len() as int) == all);
    sorted
}

/// Whether some record of `kept` speaks of the same project as `p`.
fn holds(kept: &Vec<RecentProject>, p: &RecentProject) -> (found: bool)
    ensures
        found == holds_project(kept@, p.key()),
{
    let mut j: usize = 0;
    while j < kept.len()
        invariant
            j <= kept.len(),
            forall|i: int| 0 <= i < j ==> #[trigger] kept@[i].key() != p.key(),
        decreases kept.len() - j,
    {
        if kept[j].same_project(p) {
            return true;
        }
        j += 1;
    }
    false
}

/// Keeps, for each project, the first of its records.
pub fn unique_projects(projects: Vec<RecentProject>) -> (kept: Vec<RecentProject>)
    ensures
        kept@ == first_per_project(projects@),
{
    let ghost all = projects@;
    let mut kept: Vec<RecentProject> = Vec::new();
    for p in it: projects
        invariant
            it.seq() == all,
            kept@ == first_per_project(all.take(it.index() as int)),
    {
        proof {
            assert(all.take(it.index() + 1).drop_last() == all.take(it.index() as int));
            assert(all.take(it.index() + 1).last() == p);
        }
        if !holds(&kept, &p) {
            kept.push(p);
        }
    }
    assert(all.take(all.len() as int) == all);
    kept
}

/// Builds the index of everything that was found: ordered newest first, and
/// for each project only the record that was opened last.
pub fn build_index(projects: Vec<RecentProject>) -> (index: Vec<RecentProject>)
    ensures
        index@ == project_index(projects@),
        newest_first(index@),
        distinct_projects(index@),
        forall|j: int| 0 <= j < index@.len() ==> projects@.contains(#[trigger] index@[j]),
        forall|i: int| 0 <= i < projects@.len() ==> covers(index@, #[trigger] projects@[i]),
{
    let ghost all = projects@;
    let sorted = sort_by_recency(projects);
    let index = unique_projects(sorted);
    proof {
        project_index_is_clean(all);
        assert forall|j: int| 0 <= j < index@.len() implies all.contains(
            #[trigger] index@[j],
        ) by {
            project_index_is_drawn(all, j);
        }
        assert forall|i: int| 0 <= i < all.len() implies covers(index@, #[trigger] all[i]) by {
            project_index_keeps_latest(all, i);
        }
    }
    index
}

} // verus!
