use crate::attrs::{attrs_equiv, Attrs, AttrsOwned, AttrsView};
use crate::overrides::{
    lemma_override_equiv, override_equiv, spec_diff, spec_merge, AttrsOverride, AttrsOverrideView,
};
use crate::range_map::{
    covers, lemma_neighbours, lemma_range_value, range_value, ranges_coalesced, ranges_ordered,
    span_entries, span_map_get_entry, span_map_len,
    span_map_clone, span_map_entries, span_map_get, span_map_insert, span_map_new,
    span_map_remove,
};
use core::ops::Range;
use rangemap::RangeMap;
use vstd::prelude::*;
use vstd::std_specs::cmp::PartialEqSpecImpl;

verus! {

/// What an attribute list holds: the line defaults, and the override spans
/// as `(start, end, override)` in ascending order.
pub struct AttrsListView {
    pub defaults: AttrsView,
    pub spans: Seq<(usize, usize, AttrsOverrideView)>,
}

/// The spans are non-empty, ordered and disjoint, and two touching spans
/// hold unequal overrides (touching spans with equal overrides are kept as one).
pub open spec fn spans_coalesced(s: Seq<(usize, usize, AttrsOverrideView)>) -> bool {
    &&& ranges_ordered(s)
    &&& forall|i: int|
        0 <= i && i + 1 < s.len() && #[trigger] s[i].1 == s[i + 1].0 ==> !override_equiv(
            s[i].2,
            s[i + 1].2,
        )
}

/// The attributes in force at position `k`: the override of the span that
/// holds `k` put on top of the defaults, or the defaults where no span holds it.
pub open spec fn spec_get_span(l: AttrsListView, k: int) -> AttrsView {
    match range_value(l.spans, k) {
        None => l.defaults,
        Some(o) => spec_merge(o, l.defaults),
    }
}

/// The stored ranges are ordered and coalesced, each refers to one of the
/// stored overrides, and two touching ranges refer to unequal overrides.
pub closed spec fn parts_wf(spans: RangeMap<usize, u64>, table: Seq<AttrsOverride>) -> bool {
    let e = span_entries(spans);
    &&& ranges_coalesced(e)
    &&& forall|i: int| 0 <= i < e.len() ==> (#[trigger] e[i]).2 < table.len()
    &&& forall|i: int|
        0 <= i && i + 1 < e.len() && #[trigger] e[i].1 == e[i + 1].0 ==> !override_equiv(
            table[e[i].2 as int]@,
            table[e[i + 1].2 as int]@,
        )
}

/// The spans that stored ranges and stored overrides stand for.
pub closed spec fn parts_view(spans: RangeMap<usize, u64>, table: Seq<AttrsOverride>) -> Seq<
    (usize, usize, AttrsOverrideView),
> {
    span_entries(spans).map_values(|e: (usize, usize, u64)| (e.0, e.1, table[e.2 as int]@))
}

/// The override that a position maps to is the stored override that its
/// stored range refers to; and the spans are coalesced.
proof fn lemma_parts_view(spans: RangeMap<usize, u64>, table: Seq<AttrsOverride>, k: int)
    requires
        parts_wf(spans, table),
    ensures
        range_value(parts_view(spans, table), k) == match range_value(span_entries(spans), k) {
            None => None,
            Some(j) => Some(table[j as int]@),
        },
        range_value(span_entries(spans), k) matches Some(j) ==> j < table.len(),
        spans_coalesced(parts_view(spans, table)),
{
    let e = span_entries(spans);
    let s = parts_view(spans, table);
    assert(s.len() == e.len());
    assert forall|i: int| 0 <= i < s.len() implies #[trigger] s[i].0 < s[i].1 by {
        assert(e[i].0 < e[i].1);
    }
    assert forall|i: int, j: int| 0 <= i < j < s.len() implies #[trigger] s[i].1
        <= #[trigger] s[j].0 by {
        assert(e[i].1 <= e[j].0);
    }
    assert forall|i: int|
        0 <= i && i + 1 < s.len() && #[trigger] s[i].1 == s[i + 1].0 implies !override_equiv(
        s[i].2,
        s[i + 1].2,
    ) by {
        assert(e[i].1 == e[i + 1].0);
    }
    if exists|i: int| covers(e, i, k) {
        let i = choose|i: int| covers(e, i, k);
        lemma_range_value(e, i, k);
        assert(covers(s, i, k));
        lemma_range_value(s, i, k);
    } else {
        assert forall|i: int| !covers(s, i, k) by {
            if covers(s, i, k) {
                assert(covers(e, i, k));
            }
        }
    }
}

/// Every value stored in a map whose positions map to values below `n` is below `n`.
proof fn lemma_entries_bounded(m: RangeMap<usize, u64>, n: int)
    requires
        ranges_ordered(span_entries(m)),
        forall|k: int|
            #![trigger range_value(span_entries(m), k)]
            range_value(span_entries(m), k) matches Some(v) ==> v < n,
    ensures
        forall|i: int| 0 <= i < span_entries(m).len() ==> (#[trigger] span_entries(m)[i]).2 < n,
{
    let e = span_entries(m);
    assert forall|i: int| 0 <= i < e.len() implies (#[trigger] e[i]).2 < n by {
        assert(covers(e, i, e[i].0 as int));
        lemma_range_value(e, i, e[i].0 as int);
    }
}

/// Ranges that hold a position among the first `i + 1` are those among the
/// first `i`, and range `i`.
proof fn lemma_take_extend(e: Seq<(usize, usize, u64)>, i: int)
    requires
        ranges_ordered(e),
        0 <= i < e.len(),
    ensures
        ranges_ordered(e.take(i)),
        ranges_ordered(e.take(i + 1)),
        forall|x: int|
            #![trigger range_value(e.take(i + 1), x)]
            range_value(e.take(i + 1), x) == if covers(e, i, x) {
                Some(e[i].2)
            } else {
                range_value(e.take(i), x)
            },
{
    let a = e.take(i);
    let b = e.take(i + 1);
    assert forall|x: int|
        #![trigger range_value(e.take(i + 1), x)]
        range_value(e.take(i + 1), x) == if covers(e, i, x) {
            Some(e[i].2)
        } else {
            range_value(e.take(i), x)
        } by {
        if covers(e, i, x) {
            assert(covers(b, i, x));
            lemma_range_value(b, i, x);
        } else if exists|c: int| covers(b, c, x) {
            let c = choose|c: int| covers(b, c, x);
            assert(covers(b, c, x));
            assert(c < i);
            assert(covers(a, c, x));
            lemma_range_value(b, c, x);
            lemma_range_value(a, c, x);
        } else {
            assert forall|c: int| !covers(a, c, x) by {
                if covers(a, c, x) {
                    assert(covers(b, c, x));
                }
            }
        }
    }
}

/// Empty parts are well formed and stand for no span.
proof fn lemma_empty_parts(spans: RangeMap<usize, u64>, table: Seq<AttrsOverride>)
    requires
        span_entries(spans) == Seq::<(usize, usize, u64)>::empty(),
        table.len() == 0,
    ensures
        parts_wf(spans, table),
        parts_view(spans, table) == Seq::<(usize, usize, AttrsOverrideView)>::empty(),
{
    assert(parts_view(spans, table) =~= Seq::<(usize, usize, AttrsOverrideView)>::empty());
}

/// Whether position `k` lies in a span that touches or overlaps `start..end`
/// and holds an override equal to `over`: such a span joins the range when
/// `over` is given to it.
pub open spec fn absorbs(
    s: Seq<(usize, usize, AttrsOverrideView)>,
    start: int,
    end: int,
    over: AttrsOverrideView,
    k: int,
) -> bool {
    exists|i: int|
        #[trigger] covers(s, i, k) && start <= s[i].1 && s[i].0 <= end && override_equiv(
            s[i].2,
            over,
        )
}

/// What position `k` holds after `start..end` is given `over`: `over` inside
/// the range and in every span of an equal override that touches or overlaps
/// it, and what it held before everywhere else.
pub open spec fn value_after_add(
    s: Seq<(usize, usize, AttrsOverrideView)>,
    start: int,
    end: int,
    over: AttrsOverrideView,
    k: int,
) -> Option<AttrsOverrideView> {
    if (start <= k < end) || absorbs(s, start, end, over, k) {
        Some(over)
    } else {
        range_value(s, k)
    }
}

/// Ranges whose every held position reads what the position `shift` further
/// on reads in well-formed parts, with the same overrides in the table, are
/// well formed too.
proof fn lemma_wf_from_points(
    m: RangeMap<usize, u64>,
    t: Seq<AttrsOverride>,
    m0: RangeMap<usize, u64>,
    t0: Seq<AttrsOverride>,
    shift: int,
)
    requires
        parts_wf(m0, t0),
        ranges_coalesced(span_entries(m)),
        t.len() == t0.len(),
        forall|i: int| 0 <= i < t.len() ==> (#[trigger] t[i])@ == t0[i]@,
        forall|k: int|
            #![trigger range_value(span_entries(m), k)]
            range_value(span_entries(m), k) is Some ==> range_value(span_entries(m), k)
                == range_value(span_entries(m0), k + shift),
    ensures
        parts_wf(m, t),
{
    let e = span_entries(m);
    let e0 = span_entries(m0);
    assert forall|k: int|
        #![trigger range_value(span_entries(m), k)]
        (range_value(span_entries(m), k) matches Some(v) ==> v < t.len()) by {
        if range_value(e, k) is Some {
            lemma_parts_view(m0, t0, k + shift);
        }
    }
    lemma_entries_bounded(m, t.len() as int);
    assert forall|i: int|
        0 <= i && i + 1 < e.len() && #[trigger] e[i].1 == e[i + 1].0 implies !override_equiv(
        t[e[i].2 as int]@,
        t[e[i + 1].2 as int]@,
    ) by {
        let x = e[i].1 as int;
        assert(covers(e, i, x - 1));
        assert(covers(e, i + 1, x));
        lemma_range_value(e, i, x - 1);
        lemma_range_value(e, i + 1, x);
        assert(range_value(e, x - 1) is Some);
        assert(range_value(e, x) is Some);
        let y = x + shift;
        assert(range_value(e0, y - 1) == Some(e[i].2));
        assert(range_value(e0, y) == Some(e[i + 1].2));
        let ym1 = y - 1;
        let c1 = choose|c: int| covers(e0, c, ym1);
        let c2 = choose|c: int| covers(e0, c, y);
        assert(covers(e0, c1, y - 1));
        assert(covers(e0, c2, y));
        lemma_range_value(e0, c1, y - 1);
        lemma_range_value(e0, c2, y);
        lemma_neighbours(e0, c1, c2, y);
        assert(e0[c1].1 == e0[c1 + 1].0);
    }
}

/// Where the span given to `start..` begins: at the start of the stored range
/// holding `start - 1` when that range refers to an override equal to `over`,
/// otherwise at `start`.
fn left_bound(
    spans: &RangeMap<usize, u64>,
    table: &Vec<AttrsOverride>,
    start: usize,
    over: &AttrsOverride,
) -> (lo: usize)
    requires
        parts_wf(*spans, table@),
    ensures
        lo <= start,
        lo < start ==> exists|c: int|
            #[trigger] covers(span_entries(*spans), c, start - 1) && span_entries(*spans)[c].0
                == lo && override_equiv(table@[span_entries(*spans)[c].2 as int]@, over@),
        lo == start ==> forall|c: int|
            #[trigger] covers(span_entries(*spans), c, start - 1) ==> !override_equiv(
                table@[span_entries(*spans)[c].2 as int]@,
                over@,
            ),
{
    let ghost e = span_entries(*spans);
    if start == 0 {
        return start;
    }
    proof {
        lemma_parts_view(*spans, table@, start - 1);
    }
    match span_map_get_entry(spans, start - 1) {
        None => {
            assert forall|c: int| #[trigger] covers(e, c, start - 1) implies !override_equiv(
                table@[e[c].2 as int]@,
                over@,
            ) by {
                lemma_range_value(e, c, start - 1);
            }
            start
        },
        Some((a, b, j)) => {
            let ghost sm1 = start - 1;
            let ghost c0 = choose|c: int| covers(e, c, sm1);
            proof {
                assert(covers(e, c0, start - 1));
                lemma_range_value(e, c0, start - 1);
            }
            let tl = table.len();
            assert(j < tl);
            if table[j as usize].equivalent(over) {
                assert(covers(e, c0, start - 1) && e[c0].0 == a);
                a
            } else {
                assert forall|c: int| #[trigger] covers(e, c, start - 1) implies !override_equiv(
                    table@[e[c].2 as int]@,
                    over@,
                ) by {
                    lemma_range_value(e, c, start - 1);
                }
                start
            }
        },
    }
}

/// Where the span given to `..end` ends: at the end of the stored range
/// holding `end` when that range refers to an override equal to `over`,
/// otherwise at `end`.
fn right_bound(
    spans: &RangeMap<usize, u64>,
    table: &Vec<AttrsOverride>,
    end: usize,
    over: &AttrsOverride,
) -> (hi: usize)
    requires
        parts_wf(*spans, table@),
    ensures
        hi >= end,
        hi > end ==> exists|c: int|
            #[trigger] covers(span_entries(*spans), c, end as int) && span_entries(*spans)[c].1
                == hi && override_equiv(table@[span_entries(*spans)[c].2 as int]@, over@),
        hi == end ==> forall|c: int|
            #[trigger] covers(span_entries(*spans), c, end as int) ==> !override_equiv(
                table@[span_entries(*spans)[c].2 as int]@,
                over@,
            ),
{
    let ghost e = span_entries(*spans);
    proof {
        lemma_parts_view(*spans, table@, end as int);
    }
    match span_map_get_entry(spans, end) {
        None => {
            assert forall|c: int| #[trigger] covers(e, c, end as int) implies !override_equiv(
                table@[e[c].2 as int]@,
                over@,
            ) by {
                lemma_range_value(e, c, end as int);
            }
            end
        },
        Some((a, b, j)) => {
            let ghost c0 = choose|c: int| covers(e, c, end as int);
            proof {
                assert(covers(e, c0, end as int));
                lemma_range_value(e, c0, end as int);
            }
            let tl = table.len();
            assert(j < tl);
            if table[j as usize].equivalent(over) {
                assert(covers(e, c0, end as int) && e[c0].1 == b);
                b
            } else {
                assert forall|c: int| #[trigger] covers(e, c, end as int) implies !override_equiv(
                    table@[e[c].2 as int]@,
                    over@,
                ) by {
                    lemma_range_value(e, c, end as int);
                }
                end
            }
        },
    }
}

/// After `lo..hi` is given a new override `o`, stored last, the parts are
/// well formed and read as `value_after_add` says.
proof fn lemma_insert_parts(
    m0: RangeMap<usize, u64>,
    t0: Seq<AttrsOverride>,
    m1: RangeMap<usize, u64>,
    o: AttrsOverride,
    start: int,
    end: int,
    lo: int,
    hi: int,
)
    requires
        parts_wf(m0, t0),
        lo <= start < end <= hi,
        lo < start ==> exists|c: int|
            #[trigger] covers(span_entries(m0), c, start - 1) && span_entries(m0)[c].0 == lo
                && override_equiv(t0[span_entries(m0)[c].2 as int]@, o@),
        lo == start ==> forall|c: int|
            #[trigger] covers(span_entries(m0), c, start - 1) ==> !override_equiv(
                t0[span_entries(m0)[c].2 as int]@,
                o@,
            ),
        hi > end ==> exists|c: int|
            #[trigger] covers(span_entries(m0), c, end) && span_entries(m0)[c].1 == hi
                && override_equiv(t0[span_entries(m0)[c].2 as int]@, o@),
        hi == end ==> forall|c: int|
            #[trigger] covers(span_entries(m0), c, end) ==> !override_equiv(
                t0[span_entries(m0)[c].2 as int]@,
                o@,
            ),
        ranges_coalesced(span_entries(m1)),
        t0.len() <= u64::MAX,
        forall|k: int|
            #![trigger range_value(span_entries(m1), k)]
            range_value(span_entries(m1), k) == if lo <= k < hi {
                Some(t0.len() as u64)
            } else {
                range_value(span_entries(m0), k)
            },
    ensures
        parts_wf(m1, t0.push(o)),
        forall|k: int|
            #![trigger range_value(parts_view(m1, t0.push(o)), k)]
            range_value(parts_view(m1, t0.push(o)), k) == value_after_add(
                parts_view(m0, t0),
                start,
                end,
                o@,
                k,
            ),
{
    let e0 = span_entries(m0);
    let e1 = span_entries(m1);
    let t1 = t0.push(o);
    let n = t0.len();
    lemma_override_equiv(o@, o@, o@);
    assert forall|k: int|
        #![trigger range_value(span_entries(m1), k)]
        (range_value(span_entries(m1), k) matches Some(v) ==> v < t1.len()) by {
        lemma_parts_view(m0, t0, k);
    }
    lemma_entries_bounded(m1, t1.len() as int);
    assert forall|i: int|
        0 <= i && i + 1 < e1.len() && #[trigger] e1[i].1 == e1[i + 1].0 implies !override_equiv(
        t1[e1[i].2 as int]@,
        t1[e1[i + 1].2 as int]@,
    ) by {
        let x = e1[i].1 as int;
        assert(covers(e1, i, x - 1));
        assert(covers(e1, i + 1, x));
        lemma_range_value(e1, i, x - 1);
        lemma_range_value(e1, i + 1, x);
        assert(range_value(e1, x - 1) == Some(e1[i].2));
        assert(range_value(e1, x) == Some(e1[i + 1].2));
        assert(e1[i].2 != e1[i + 1].2);
        let in1 = lo <= x - 1 < hi;
        let in2 = lo <= x < hi;
        if !in1 && !in2 {
            let xm1 = x - 1;
            let c1 = choose|c: int| covers(e0, c, xm1);
            let c2 = choose|c: int| covers(e0, c, x);
            assert(covers(e0, c1, x - 1));
            assert(covers(e0, c2, x));
            lemma_range_value(e0, c1, x - 1);
            lemma_range_value(e0, c2, x);
            lemma_neighbours(e0, c1, c2, x);
            assert(e0[c1].1 == e0[c1 + 1].0);
            lemma_parts_view(m0, t0, x);
        } else if in1 && !in2 {
            assert(x == hi);
            let c2 = choose|c: int| covers(e0, c, x);
            assert(covers(e0, c2, x));
            lemma_range_value(e0, c2, x);
            lemma_parts_view(m0, t0, x);
            let q = t0[e0[c2].2 as int]@;
            if hi == end {
                assert(!override_equiv(q, o@));
                lemma_override_equiv(o@, q, o@);
            } else {
                let r = choose|c: int|
                    #[trigger] covers(e0, c, end) && e0[c].1 == hi && override_equiv(
                        t0[e0[c].2 as int]@,
                        o@,
                    );
                assert(covers(e0, r, x - 1));
                lemma_neighbours(e0, r, c2, x);
                assert(e0[r].1 == e0[r + 1].0);
                let p = t0[e0[r].2 as int]@;
                lemma_override_equiv(o@, p, q);
                lemma_override_equiv(p, o@, q);
            }
        } else if !in1 && in2 {
            assert(x == lo);
            let xm1 = x - 1;
            let c1 = choose|c: int| covers(e0, c, xm1);
            assert(covers(e0, c1, x - 1));
            lemma_range_value(e0, c1, x - 1);
            lemma_parts_view(m0, t0, x - 1);
            let q = t0[e0[c1].2 as int]@;
            if lo == start {
                assert(!override_equiv(q, o@));
            } else {
                let l = choose|c: int|
                    #[trigger] covers(e0, c, start - 1) && e0[c].0 == lo && override_equiv(
                        t0[e0[c].2 as int]@,
                        o@,
                    );
                assert(covers(e0, l, x));
                lemma_neighbours(e0, c1, l, x);
                assert(e0[c1].1 == e0[c1 + 1].0);
                let p = t0[e0[l].2 as int]@;
                lemma_override_equiv(q, p, o@);
                lemma_override_equiv(p, q, o@);
                lemma_override_equiv(q, o@, p);
            }
        }
    }
    assert(parts_wf(m1, t1));
    let s0 = parts_view(m0, t0);
    assert forall|k: int|
        #![trigger range_value(parts_view(m1, t0.push(o)), k)]
        range_value(parts_view(m1, t0.push(o)), k) == value_after_add(s0, start, end, o@, k) by {
        lemma_parts_view(m1, t1, k);
        lemma_parts_view(m0, t0, k);
        if lo <= k < hi {
            if k < start {
                let c = choose|c: int|
                    #[trigger] covers(e0, c, start - 1) && e0[c].0 == lo && override_equiv(
                        t0[e0[c].2 as int]@,
                        o@,
                    );
                assert(covers(e0, c, k));
                assert(covers(s0, c, k));
                assert(absorbs(s0, start, end, o@, k));
            } else if k >= end {
                let c = choose|c: int|
                    #[trigger] covers(e0, c, end) && e0[c].1 == hi && override_equiv(
                        t0[e0[c].2 as int]@,
                        o@,
                    );
                assert(covers(e0, c, k));
                assert(covers(s0, c, k));
                assert(absorbs(s0, start, end, o@, k));
            }
        } else {
            if absorbs(s0, start, end, o@, k) {
                let i = choose|i: int|
                    #[trigger] covers(s0, i, k) && start <= s0[i].1 && s0[i].0 <= end
                        && override_equiv(s0[i].2, o@);
                assert(covers(e0, i, k));
                if k < lo {
                    assert(covers(e0, i, start - 1));
                    if lo < start {
                        let c = choose|c: int|
                            #[trigger] covers(e0, c, start - 1) && e0[c].0 == lo
                                && override_equiv(t0[e0[c].2 as int]@, o@);
                        lemma_range_value(e0, c, start - 1);
                        lemma_range_value(e0, i, start - 1);
                    }
                } else {
                    assert(covers(e0, i, end));
                    if hi > end {
                        let c = choose|c: int|
                            #[trigger] covers(e0, c, end) && e0[c].1 == hi && override_equiv(
                                t0[e0[c].2 as int]@,
                                o@,
                            );
                        lemma_range_value(e0, c, end);
                        lemma_range_value(e0, i, end);
                    }
                }
            }
        }
    }
}

/// Give the positions `start..end` the override `over`, joining the spans of
/// equal overrides that touch or overlap the range.
fn insert_override(
    spans: &mut RangeMap<usize, u64>,
    table: &mut Vec<AttrsOverride>,
    start: usize,
    end: usize,
    over: AttrsOverride,
)
    requires
        parts_wf(*old(spans), old(table)@),
        start < end,
    ensures
        parts_wf(*final(spans), final(table)@),
        forall|k: int|
            #![trigger range_value(parts_view(*final(spans), final(table)@), k)]
            range_value(parts_view(*final(spans), final(table)@), k) == value_after_add(
                parts_view(*old(spans), old(table)@),
                start as int,
                end as int,
                over@,
                k,
            ),
{
    let ghost m0 = *spans;
    let ghost t0 = table@;
    let ghost o = over;
    let lo = left_bound(spans, table, start, &over);
    let hi = right_bound(spans, table, end, &over);
    let n = table.len();
    table.push(over);
    assert(table@ == t0.push(o));
    span_map_insert(spans, lo, hi, n as u64);
    proof {
        lemma_insert_parts(m0, t0, *spans, o, start as int, end as int, lo as int, hi as int);
    }
    compact_if_sparse(spans, table);
}

/// Rebuild the table with only the overrides that stored ranges refer to,
/// once it holds more than twice as many overrides as there are ranges.
fn compact_if_sparse(spans: &mut RangeMap<usize, u64>, table: &mut Vec<AttrsOverride>)
    requires
        parts_wf(*old(spans), old(table)@),
    ensures
        parts_wf(*final(spans), final(table)@),
        forall|k: int|
            #![trigger range_value(parts_view(*final(spans), final(table)@), k)]
            range_value(parts_view(*final(spans), final(table)@), k) == range_value(
                parts_view(*old(spans), old(table)@),
                k,
            ),
{
    let count = span_map_len(spans);
    let len = table.len();
    if len <= 16 || len / 2 <= count {
        return;
    }
    let ghost m0 = *spans;
    let ghost t0 = table@;
    let entries = span_map_entries(spans);
    let ghost e = entries@;
    let mut m = span_map_new();
    let mut t: Vec<AttrsOverride> = Vec::new();
    let n = entries.len();
    for i in 0..n
        invariant
            n == e.len(),
            entries@ == e,
            e == span_entries(m0),
            *spans == m0,
            table@ == t0,
            parts_wf(m0, t0),
            t@.len() == i,
            forall|j: int| 0 <= j < i ==> (#[trigger] t@[j])@ == t0[e[j].2 as int]@,
            i == 0 ==> span_entries(m) == Seq::<(usize, usize, u64)>::empty(),
            ranges_coalesced(span_entries(m)),
            forall|k: int|
                #![trigger range_value(span_entries(m), k)]
                range_value(span_entries(m), k) matches Some(j) ==> j < i && covers(e, j as int, k),
            forall|k: int, j: int|
                0 <= j < i && #[trigger] covers(e, j, k) ==> range_value(span_entries(m), k) == Some(
                    j as u64,
                ),
    {
        let (start, end, idx) = entries[i];
        proof {
            lemma_parts_view(m0, t0, start as int);
            assert(covers(e, i as int, start as int));
            lemma_range_value(e, i as int, start as int);
        }
        let tl = table.len();
        assert(idx < tl);
        t.push(table[idx as usize].duplicate());
        let ghost before = m;
        span_map_insert(&mut m, start, end, i as u64);
        proof {
            assert forall|k: int|
                #![trigger range_value(span_entries(m), k)]
                (range_value(span_entries(m), k) matches Some(j) ==> j < i + 1 && covers(
                    e,
                    j as int,
                    k,
                )) by {
                assert(range_value(span_entries(before), k) matches Some(j) ==> j < i && covers(
                    e,
                    j as int,
                    k,
                ));
            }
            assert forall|k: int, j: int|
                0 <= j < i + 1 && #[trigger] covers(e, j, k) implies range_value(
                span_entries(m),
                k,
            ) == Some(j as u64) by {
                if j < i {
                    assert(range_value(span_entries(before), k) == Some(j as u64));
                    if start <= k < end {
                        assert(covers(e, i as int, k));
                        lemma_range_value(e, j, k);
                        lemma_range_value(e, i as int, k);
                        assert(e[j].1 <= e[i as int].0);
                    }
                }
            }
        }
    }
    proof {
        if n == 0 {
            assert(ranges_coalesced(Seq::<(usize, usize, u64)>::empty()));
        }
        let e1 = span_entries(m);
        let tv = t@;
        assert forall|k: int|
            #![trigger range_value(span_entries(m), k)]
            (range_value(span_entries(m), k) matches Some(v) ==> v < tv.len()) by {}
        lemma_entries_bounded(m, tv.len() as int);
        assert forall|i: int|
            0 <= i && i + 1 < e1.len() && #[trigger] e1[i].1 == e1[i + 1].0 implies !override_equiv(
            tv[e1[i].2 as int]@,
            tv[e1[i + 1].2 as int]@,
        ) by {
            let x = e1[i].1 as int;
            assert(covers(e1, i, x - 1));
            assert(covers(e1, i + 1, x));
            lemma_range_value(e1, i, x - 1);
            lemma_range_value(e1, i + 1, x);
            let j1 = e1[i].2 as int;
            let j2 = e1[i + 1].2 as int;
            assert(covers(e, j1, x - 1));
            assert(covers(e, j2, x));
            lemma_neighbours(e, j1, j2, x);
            assert(e[j1].1 == e[j1 + 1].0);
        }
        assert(parts_wf(m, tv));
        assert forall|k: int|
            #![trigger range_value(parts_view(m, tv), k)]
            range_value(parts_view(m, tv), k) == range_value(parts_view(m0, t0), k) by {
            lemma_parts_view(m, tv, k);
            lemma_parts_view(m0, t0, k);
            if exists|c: int| covers(e, c, k) {
                let c = choose|c: int| covers(e, c, k);
                assert(covers(e, c, k));
                lemma_range_value(e, c, k);
            }
        }
    }
    *spans = m;
    *table = t;
}

/// The ranges of `spans` from `index` on, moved down by `index`.
fn shifted_tail(spans: &RangeMap<usize, u64>, index: usize) -> (r: RangeMap<usize, u64>)
    requires
        ranges_ordered(span_entries(*spans)),
    ensures
        ranges_coalesced(span_entries(r)),
        forall|k: int|
            0 <= k ==> #[trigger] range_value(span_entries(r), k) == range_value(
                span_entries(*spans),
                k + index,
            ),
{
    let entries = span_map_entries(spans);
    let ghost e = entries@;
    let mut out = span_map_new();
    let n = entries.len();
    for i in 0..n
        invariant
            n == e.len(),
            entries@ == e,
            e == span_entries(*spans),
            ranges_ordered(e),
            i == 0 ==> span_entries(out) == Seq::<(usize, usize, u64)>::empty(),
            ranges_coalesced(span_entries(out)),
            forall|k: int|
                0 <= k ==> #[trigger] range_value(span_entries(out), k) == range_value(
                    e.take(i as int),
                    k + index,
                ),
    {
        let (start, end, value) = entries[i];
        let ghost before = out;
        proof {
            lemma_take_extend(e, i as int);
        }
        if end > index {
            let lo = if start > index {
                start - index
            } else {
                0
            };
            span_map_insert(&mut out, lo, end - index, value);
        }
        assert forall|k: int|
            0 <= k implies #[trigger] range_value(span_entries(out), k) == range_value(
            e.take(i + 1),
            k + index,
        ) by {
            assert(range_value(span_entries(before), k) == range_value(e.take(i as int), k + index));
        }
    }
    proof {
        assert(e.take(n as int) =~= e);
        if n == 0 {
            assert(ranges_coalesced(Seq::<(usize, usize, u64)>::empty()));
        }
    }
    out
}

/// A copy of each override, in the same positions.
fn copy_table(table: &Vec<AttrsOverride>) -> (r: Vec<AttrsOverride>)
    ensures
        r@.len() == table@.len(),
        forall|i: int| 0 <= i < r@.len() ==> (#[trigger] r@[i])@ == table@[i]@,
{
    let mut r: Vec<AttrsOverride> = Vec::new();
    let n = table.len();
    for i in 0..n
        invariant
            n == table@.len(),
            r@.len() == i,
            forall|j: int| 0 <= j < i ==> (#[trigger] r@[j])@ == table@[j]@,
    {
        r.push(table[i].duplicate());
    }
    r
}

/// List of text attributes to apply to a line
#[derive(Debug)]
pub struct AttrsList {
    defaults: AttrsOwned,
    spans: RangeMap<usize, u64>,
    overrides: Vec<AttrsOverride>,
}

impl View for AttrsList {
    type V = AttrsListView;

    closed spec fn view(&self) -> AttrsListView {
        AttrsListView { defaults: self.defaults@, spans: parts_view(self.spans, self.overrides@) }
    }
}

impl AttrsList {
    /// The stored ranges are ordered and coalesced, each refers to a stored
    /// override, and touching ranges refer to unequal overrides. The table may
    /// also hold overrides that no range refers to, and equal overrides.
    #[verifier::type_invariant]
    closed spec fn wf(&self) -> bool {
        parts_wf(self.spans, self.overrides@)
    }

    /// Move the stored ranges and overrides out, leaving none.
    fn take_parts(&mut self) -> (r: (RangeMap<usize, u64>, Vec<AttrsOverride>))
        ensures
            final(self)@.defaults == old(self)@.defaults,
            final(self)@.spans == Seq::<(usize, usize, AttrsOverrideView)>::empty(),
            span_entries(final(self).spans) == Seq::<(usize, usize, u64)>::empty(),
            final(self).overrides@.len() == 0,
            parts_wf(r.0, r.1@),
            parts_view(r.0, r.1@) == old(self)@.spans,
    {
        proof {
            use_type_invariant(&*self);
        }
        let mut spans = span_map_new();
        proof {
            lemma_empty_parts(spans, Seq::<AttrsOverride>::empty());
            assert(parts_wf(spans, self.overrides@)) by {
                assert forall|i: int| 0 <= i < span_entries(spans).len() implies (
                #[trigger] span_entries(spans)[i]).2 < self.overrides@.len() by {}
            }
        }
        core::mem::swap(&mut spans, &mut self.spans);
        let mut table: Vec<AttrsOverride> = Vec::new();
        core::mem::swap(&mut table, &mut self.overrides);
        proof {
            lemma_empty_parts(self.spans, self.overrides@);
        }
        (spans, table)
    }

    /// Move stored ranges and overrides in, in place of none.
    fn put_parts(&mut self, spans: RangeMap<usize, u64>, table: Vec<AttrsOverride>)
        requires
            span_entries(old(self).spans) == Seq::<(usize, usize, u64)>::empty(),
            old(self).overrides@.len() == 0,
            parts_wf(spans, table@),
        ensures
            final(self)@.defaults == old(self)@.defaults,
            final(self)@.spans == parts_view(spans, table@),
            spans_coalesced(final(self)@.spans),
    {
        proof {
            lemma_parts_view(spans, table@, 0);
        }
        let mut table = table;
        let mut spans = spans;
        proof {
            assert(parts_wf(self.spans, table@));
        }
        core::mem::swap(&mut table, &mut self.overrides);
        core::mem::swap(&mut spans, &mut self.spans);
    }

    /// Create a new attributes list with a set of default [Attrs]
    pub fn new(defaults: &Attrs) -> (r: Self)
        ensures
            r@.defaults == defaults@,
            r@.spans == Seq::<(usize, usize, AttrsOverrideView)>::empty(),
    {
        let spans = span_map_new();
        proof {
            lemma_empty_parts(spans, Seq::<AttrsOverride>::empty());
        }
        AttrsList { defaults: AttrsOwned::new(defaults), spans, overrides: Vec::new() }
    }

    /// Get the default [Attrs]
    pub fn defaults(&self) -> (r: Attrs<'_>)
        ensures
            r@ == self@.defaults,
            spans_coalesced(self@.spans),
    {
        proof {
            use_type_invariant(self);
            lemma_parts_view(self.spans, self.overrides@, 0);
        }
        self.defaults.as_attrs()
    }

    /// Get the current attribute spans, in ascending order of range.
    pub fn spans(&self) -> (r: Vec<(Range<usize>, &AttrsOverride)>)
        ensures
            spans_coalesced(self@.spans),
            r@.len() == self@.spans.len(),
            forall|i: int|
                0 <= i < r@.len() ==> (#[trigger] r@[i]).0.start == self@.spans[i].0
                    && r@[i].0.end == self@.spans[i].1 && r@[i].1@ == self@.spans[i].2,
    {
        proof {
            use_type_invariant(self);
        }
        let entries = span_map_entries(&self.spans);
        let mut out: Vec<(Range<usize>, &AttrsOverride)> = Vec::new();
        let n = entries.len();
        let table_len = self.overrides.len();
        for i in 0..n
            invariant
                parts_wf(self.spans, self.overrides@),
                n == entries@.len(),
                table_len == self.overrides@.len(),
                entries@ == span_entries(self.spans),
                out@.len() == i,
                forall|j: int|
                    0 <= j < i ==> (#[trigger] out@[j]).0.start == self@.spans[j].0
                        && out@[j].0.end == self@.spans[j].1 && out@[j].1@ == self@.spans[j].2,
        {
            let (start, end, idx) = entries[i];
            assert(entries@[i as int].2 < self.overrides@.len());
            assert(idx < table_len);
            assert(self@.spans[i as int] == (start, end, self.overrides@[idx as int]@));
            out.push((Range { start, end }, &self.overrides[idx as usize]));
        }
        out
    }

    /// Clear the current attribute spans
    pub fn clear_spans(&mut self)
        ensures
            final(self)@.defaults == old(self)@.defaults,
            final(self)@.spans == Seq::<(usize, usize, AttrsOverrideView)>::empty(),
    {
        let _ = self.take_parts();
    }

    /// Add a sparse override span, removes any previous matching parts of spans.
    ///
    /// Each field of `over` is either `Inherit` (resolves to the
    /// corresponding default at lookup time via [`Self::get_span`]) or
    /// `Value(v)` (overrides the default for that range). An empty or
    /// reversed range changes nothing. A span of an equal override that
    /// touches or overlaps the range joins it and takes `over`'s values;
    /// every other position keeps the override it had.
    pub fn add_span(&mut self, range: Range<usize>, over: &AttrsOverride)
        ensures
            range.start >= range.end ==> final(self)@ == old(self)@,
            final(self)@.defaults == old(self)@.defaults,
            spans_coalesced(final(self)@.spans),
            range.start < range.end ==> forall|k: int|
                #[trigger] range_value(final(self)@.spans, k) == value_after_add(
                    old(self)@.spans,
                    range.start as int,
                    range.end as int,
                    over@,
                    k,
                ),
    {
        proof {
            use_type_invariant(&*self);
            lemma_parts_view(self.spans, self.overrides@, 0);
        }
        if range.start >= range.end {
            return;
        }
        let (mut spans, mut table) = self.take_parts();
        insert_override(&mut spans, &mut table, range.start, range.end, over.duplicate());
        self.put_parts(spans, table);
    }

    /// Add an attribute span from a full [`Attrs`] value, computing the
    /// sparse override against the current defaults.
    pub fn add_span_from_attrs(&mut self, range: Range<usize>, attrs: &Attrs)
        ensures
            range.start >= range.end ==> final(self)@ == old(self)@,
            final(self)@.defaults == old(self)@.defaults,
            spans_coalesced(final(self)@.spans),
            range.start < range.end ==> forall|k: int|
                #[trigger] range_value(final(self)@.spans, k) == value_after_add(
                    old(self)@.spans,
                    range.start as int,
                    range.end as int,
                    spec_diff(old(self)@.defaults, attrs@),
                    k,
                ),
    {
        proof {
            use_type_invariant(&*self);
            lemma_parts_view(self.spans, self.overrides@, 0);
        }
        if range.start >= range.end {
            return;
        }
        let over = AttrsOverride::diff(&self.defaults.as_attrs(), attrs);
        let (mut spans, mut table) = self.take_parts();
        insert_override(&mut spans, &mut table, range.start, range.end, over);
        self.put_parts(spans, table);
    }

    /// Get the resolved attributes at `index`, merging the per-position
    /// sparse override (if any) on top of the line defaults.
    pub fn get_span(&self, index: usize) -> (r: Attrs<'_>)
        ensures
            r@ == spec_get_span(self@, index as int),
            spans_coalesced(self@.spans),
    {
        proof {
            use_type_invariant(self);
            lemma_parts_view(self.spans, self.overrides@, index as int);
        }
        let table_len = self.overrides.len();
        match span_map_get(&self.spans, index) {
            None => self.defaults.as_attrs(),
            Some(i) => {
                assert(i < table_len);
                self.overrides[i as usize].merge(&self.defaults)
            },
        }
    }

    /// Split attributes list at an offset: `self` keeps the spans before
    /// `index`, and the returned list, with the same defaults, holds the spans
    /// from `index` on, moved down by `index`.
    pub fn split_off(&mut self, index: usize) -> (r: Self)
        ensures
            final(self)@.defaults == old(self)@.defaults,
            r@.defaults == old(self)@.defaults,
            spans_coalesced(final(self)@.spans),
            spans_coalesced(r@.spans),
            forall|k: int|
                k < index ==> #[trigger] range_value(final(self)@.spans, k) == range_value(
                    old(self)@.spans,
                    k,
                ),
            forall|k: int| index <= k ==> #[trigger] range_value(final(self)@.spans, k) is None,
            forall|k: int|
                0 <= k ==> #[trigger] range_value(r@.spans, k) == range_value(
                    old(self)@.spans,
                    k + index,
                ),
    {
        let ghost old_view = self@;
        let (mut spans, table) = self.take_parts();
        let ghost s0 = spans;
        let ghost t0 = table@;
        proof {
            lemma_parts_view(s0, t0, 0);
        }
        let tail = shifted_tail(&spans, index);
        let tail_table = copy_table(&table);
        let ghost e = span_entries(s0);
        proof {
            assert forall|k: int|
                #![trigger range_value(span_entries(tail), k)]
                range_value(span_entries(tail), k) is Some implies range_value(
                span_entries(tail),
                k,
            ) == range_value(span_entries(s0), k + index) by {
                if k < 0 {
                    assert forall|c: int| !covers(span_entries(tail), c, k) by {}
                }
            }
            lemma_wf_from_points(tail, tail_table@, s0, t0, index as int);
            assert(parts_wf(tail, tail_table@));
            assert forall|k: int| 0 <= k implies #[trigger] range_value(
                parts_view(tail, tail_table@),
                k,
            ) == range_value(old_view.spans, k + index) by {
                lemma_parts_view(tail, tail_table@, k);
                lemma_parts_view(s0, t0, k + index);
            }
            lemma_parts_view(tail, tail_table@, 0);
        }
        let r = AttrsList {
            defaults: AttrsOwned::new(&self.defaults.as_attrs()),
            spans: tail,
            overrides: tail_table,
        };
        if index < usize::MAX {
            span_map_remove(&mut spans, index, usize::MAX);
        }
        proof {
            let e1 = span_entries(spans);
            assert forall|k: int|
                #![trigger range_value(span_entries(spans), k)]
                range_value(span_entries(spans), k) is Some implies range_value(
                span_entries(spans),
                k,
            ) == range_value(span_entries(s0), k + 0) by {
                if index == usize::MAX {
                    assert(e1 == e);
                }
            }
            lemma_wf_from_points(spans, t0, s0, t0, 0);
            assert(parts_wf(spans, t0));
            assert forall|k: int| k < index implies #[trigger] range_value(
                parts_view(spans, t0),
                k,
            ) == range_value(old_view.spans, k) by {
                lemma_parts_view(spans, t0, k);
                lemma_parts_view(s0, t0, k);
            }
            assert forall|k: int| index <= k implies #[trigger] range_value(
                parts_view(spans, t0),
                k,
            ) is None by {
                lemma_parts_view(spans, t0, k);
                if k >= usize::MAX {
                    assert forall|c: int| !covers(e1, c, k) by {}
                }
            }
        }
        self.put_parts(spans, table);
        r
    }

    /// Resets the attributes with new defaults, clearing the spans.
    pub fn reset(self, default: &Attrs) -> (r: Self)
        ensures
            r@.defaults == default@,
            r@.spans == Seq::<(usize, usize, AttrsOverrideView)>::empty(),
    {
        AttrsList::new(default)
    }
}

/// Equality of attribute lists as `==` decides it: equal defaults, and the
/// same spans with equal overrides.
pub open spec fn list_equiv(a: AttrsListView, b: AttrsListView) -> bool {
    &&& attrs_equiv(a.defaults, b.defaults)
    &&& a.spans.len() == b.spans.len()
    &&& forall|i: int|
        0 <= i < a.spans.len() ==> (#[trigger] a.spans[i]).0 == b.spans[i].0 && a.spans[i].1
            == b.spans[i].1 && override_equiv(a.spans[i].2, b.spans[i].2)
}

impl AttrsList {
    /// Whether two lists are equal: equal defaults, and the same spans with
    /// equal overrides.
    pub fn equivalent(&self, other: &AttrsList) -> (r: bool)
        ensures
            r == list_equiv(self@, other@),
    {
        proof {
            use_type_invariant(self);
            use_type_invariant(other);
        }
        if !self.defaults.equivalent(&other.defaults) {
            return false;
        }
        let a = span_map_entries(&self.spans);
        let b = span_map_entries(&other.spans);
        let n = a.len();
        if n != b.len() {
            return false;
        }
        let la = self.overrides.len();
        let lb = other.overrides.len();
        for i in 0..n
            invariant
                parts_wf(self.spans, self.overrides@),
                parts_wf(other.spans, other.overrides@),
                a@ == span_entries(self.spans),
                b@ == span_entries(other.spans),
                n == a@.len(),
                n == b@.len(),
                la == self.overrides@.len(),
                lb == other.overrides@.len(),
                forall|j: int|
                    0 <= j < i ==> (#[trigger] self@.spans[j]).0 == other@.spans[j].0
                        && self@.spans[j].1 == other@.spans[j].1 && override_equiv(
                        self@.spans[j].2,
                        other@.spans[j].2,
                    ),
        {
            let (sa, ea, ia) = a[i];
            let (sb, eb, ib) = b[i];
            assert(a@[i as int].2 < la);
            assert(b@[i as int].2 < lb);
            assert(ia < la && ib < lb);
            assert(self@.spans[i as int] == (sa, ea, self.overrides@[ia as int]@));
            assert(other@.spans[i as int] == (sb, eb, other.overrides@[ib as int]@));
            if sa != sb || ea != eb || !self.overrides[ia as usize].equivalent(
                &other.overrides[ib as usize],
            ) {
                return false;
            }
        }
        true
    }
}

impl PartialEq for AttrsList {
    fn eq(&self, other: &Self) -> (r: bool) {
        self.equivalent(other)
    }
}

impl PartialEqSpecImpl for AttrsList {
    open spec fn obeys_eq_spec() -> bool {
        true
    }

    open spec fn eq_spec(&self, other: &AttrsList) -> bool {
        list_equiv(self@, other@)
    }
}

impl Eq for AttrsList {}

impl Clone for AttrsList {
    fn clone(&self) -> (r: Self)
        ensures
            r@ == self@,
    {
        proof {
            use_type_invariant(self);
        }
        let spans = span_map_clone(&self.spans);
        let overrides = copy_table(&self.overrides);
        proof {
            let t = self.overrides@;
            assert(span_entries(spans) == span_entries(self.spans));
            lemma_wf_from_points(spans, overrides@, self.spans, t, 0);
            assert(parts_wf(spans, overrides@));
            assert(parts_view(spans, overrides@) =~= parts_view(self.spans, t));
        }
        AttrsList { defaults: AttrsOwned::new(&self.defaults.as_attrs()), spans, overrides }
    }
}

/// Reading a position inside a range just given an override gives that
/// override put on top of the defaults.
pub proof fn lemma_get_span_after_add(
    before: AttrsListView,
    after: AttrsListView,
    start: int,
    end: int,
    over: AttrsOverrideView,
    k: int,
)
    requires
        after.defaults == before.defaults,
        forall|j: int|
            #[trigger] range_value(after.spans, j) == value_after_add(
                before.spans,
                start,
                end,
                over,
                j,
            ),
        start <= k < end,
    ensures
        spec_get_span(after, k) == spec_merge(over, before.defaults),
{
    assert(range_value(after.spans, k) == Some(over));
}

/// Reading a position outside a range just given an override gives what was
/// read there before, exactly where no span of an equal override touching the
/// range held it, and equal attributes everywhere.
pub proof fn lemma_get_span_outside_add(
    before: AttrsListView,
    after: AttrsListView,
    start: int,
    end: int,
    over: AttrsOverrideView,
    k: int,
)
    requires
        spans_coalesced(before.spans),
        after.defaults == before.defaults,
        forall|j: int|
            #[trigger] range_value(after.spans, j) == value_after_add(
                before.spans,
                start,
                end,
                over,
                j,
            ),
        !(start <= k < end),
    ensures
        !absorbs(before.spans, start, end, over, k) ==> spec_get_span(after, k) == spec_get_span(
            before,
            k,
        ),
        attrs_equiv(spec_get_span(after, k), spec_get_span(before, k)),
{
    assert(range_value(after.spans, k) == value_after_add(before.spans, start, end, over, k));
    crate::attrs::lemma_attrs_equiv(
        spec_get_span(after, k),
        spec_get_span(before, k),
        spec_get_span(after, k),
    );
    if absorbs(before.spans, start, end, over, k) {
        let i = choose|i: int|
            #[trigger] covers(before.spans, i, k) && start <= before.spans[i].1
                && before.spans[i].0 <= end && override_equiv(before.spans[i].2, over);
        lemma_range_value(before.spans, i, k);
        let o = before.spans[i].2;
        crate::overrides::lemma_override_equiv(o, over, o);
        crate::overrides::lemma_merge_equiv(over, o, before.defaults);
    }
}

/// Coalesced spans are determined by what each position reads: two coalesced
/// span lists that read alike everywhere are the same list.
pub proof fn lemma_spans_determined(
    s: Seq<(usize, usize, AttrsOverrideView)>,
    t: Seq<(usize, usize, AttrsOverrideView)>,
)
    requires
        spans_coalesced(s),
        spans_coalesced(t),
        forall|k: int| #[trigger] range_value(s, k) == range_value(t, k),
    ensures
        s == t,
{
    lemma_spans_prefix(s, t, s.len() as int);
    if t.len() > s.len() {
        lemma_spans_step(t, s, s.len() as int);
    }
    assert(s =~= t);
}

/// The first `n` spans of two coalesced lists that read alike are the same.
proof fn lemma_spans_prefix(
    s: Seq<(usize, usize, AttrsOverrideView)>,
    t: Seq<(usize, usize, AttrsOverrideView)>,
    n: int,
)
    requires
        spans_coalesced(s),
        spans_coalesced(t),
        forall|k: int| #[trigger] range_value(s, k) == range_value(t, k),
        0 <= n <= s.len(),
    ensures
        n <= t.len(),
        forall|j: int| 0 <= j < n ==> #[trigger] s[j] == t[j],
    decreases n,
{
    if n > 0 {
        lemma_spans_prefix(s, t, n - 1);
        lemma_spans_step(s, t, n - 1);
    }
}

/// Given that two coalesced lists that read alike agree on their first `i`
/// spans, the second has a span `i` too, and it is the first's.
proof fn lemma_spans_step(
    s: Seq<(usize, usize, AttrsOverrideView)>,
    t: Seq<(usize, usize, AttrsOverrideView)>,
    i: int,
)
    requires
        spans_coalesced(s),
        spans_coalesced(t),
        forall|k: int| #[trigger] range_value(s, k) == range_value(t, k),
        0 <= i < s.len(),
        i <= t.len(),
        forall|j: int| 0 <= j < i ==> #[trigger] s[j] == t[j],
    ensures
        i < t.len(),
        s[i] == t[i],
{
    let a = s[i].0 as int;
    let b = s[i].1 as int;
    let v = s[i].2;
    crate::overrides::lemma_override_equiv(v, v, v);
    assert(covers(s, i, a));
    lemma_range_value(s, i, a);
    assert(range_value(t, a) == Some(v));
    let m = choose|c: int| covers(t, c, a);
    assert(covers(t, m, a));
    lemma_range_value(t, m, a);
    if m < i {
        assert(covers(s, m, a));
        assert(s[m].1 <= s[i].0);
    }
    assert(m >= i);
    if t[m].0 < a {
        let am1 = a - 1;
        assert(covers(t, m, am1));
        lemma_range_value(t, m, am1);
        assert(range_value(s, am1) == Some(v));
        let c = choose|c: int| covers(s, c, am1);
        assert(covers(s, c, am1));
        lemma_range_value(s, c, am1);
        lemma_neighbours(s, c, i, a);
        assert(s[c].1 == s[c + 1].0);
    }
    assert(t[m].0 == a);
    if m > i {
        let p = t[i].0 as int;
        assert(covers(t, i, p));
        assert(t[i].1 <= t[m].0);
        lemma_range_value(t, i, p);
        assert(range_value(s, p) is Some);
        let c = choose|c: int| covers(s, c, p);
        assert(covers(s, c, p));
        if c >= i {
            assert(s[c].0 >= s[i].0) by {
                if c > i {
                    assert(s[i].1 <= s[c].0);
                }
            }
        }
        assert(c < i);
        assert(covers(t, c, p));
        if i > 0 {
            assert(t[c].1 <= t[i].0) by {
                if c < i {
                }
            }
        }
    }
    assert(m == i);
    if t[i].1 < b {
        let y = t[i].1 as int;
        assert(covers(s, i, y));
        lemma_range_value(s, i, y);
        assert(range_value(t, y) == Some(v));
        let c = choose|c: int| covers(t, c, y);
        assert(covers(t, c, y));
        lemma_range_value(t, c, y);
        assert(covers(t, i, y - 1));
        lemma_neighbours(t, i, c, y);
        assert(t[i].1 == t[i + 1].0);
    }
    if t[i].1 > b {
        assert(covers(t, i, b));
        lemma_range_value(t, i, b);
        assert(range_value(s, b) == Some(v));
        let c = choose|c: int| covers(s, c, b);
        assert(covers(s, c, b));
        lemma_range_value(s, c, b);
        assert(covers(s, i, b - 1));
        lemma_neighbours(s, i, c, b);
        assert(s[i].1 == s[i + 1].0);
    }
}

/// Adding a span from full attributes gives the list that adding the
/// difference of those attributes from the defaults gives.
pub proof fn lemma_add_span_from_attrs_is_add_span_of_diff(
    before: AttrsListView,
    via_attrs: AttrsListView,
    via_diff: AttrsListView,
    start: int,
    end: int,
    attrs: AttrsView,
)
    requires
        via_attrs.defaults == before.defaults,
        via_diff.defaults == before.defaults,
        spans_coalesced(via_attrs.spans),
        spans_coalesced(via_diff.spans),
        start >= end ==> via_attrs == before && via_diff == before,
        start < end ==> forall|k: int|
            #[trigger] range_value(via_attrs.spans, k) == value_after_add(
                before.spans,
                start,
                end,
                spec_diff(before.defaults, attrs),
                k,
            ),
        start < end ==> forall|k: int|
            #[trigger] range_value(via_diff.spans, k) == value_after_add(
                before.spans,
                start,
                end,
                spec_diff(before.defaults, attrs),
                k,
            ),
    ensures
        via_attrs == via_diff,
        list_equiv(via_attrs, via_diff),
{
    if start < end {
        assert forall|k: int| #[trigger] range_value(via_attrs.spans, k) == range_value(
            via_diff.spans,
            k,
        ) by {
            assert(range_value(via_attrs.spans, k) == value_after_add(
                before.spans,
                start,
                end,
                spec_diff(before.defaults, attrs),
                k,
            ));
            assert(range_value(via_diff.spans, k) == value_after_add(
                before.spans,
                start,
                end,
                spec_diff(before.defaults, attrs),
                k,
            ));
        }
        lemma_spans_determined(via_attrs.spans, via_diff.spans);
    }
    lemma_list_equiv(via_attrs, via_attrs, via_attrs);
}

/// Splitting a list at `index` loses nothing: positions before `index` read
/// the same from the kept part, and positions from `index` on read the same
/// from the returned part at `index` less.
pub proof fn lemma_split_off_reads(
    before: AttrsListView,
    kept: AttrsListView,
    tail: AttrsListView,
    index: int,
    k: int,
)
    requires
        kept.defaults == before.defaults,
        tail.defaults == before.defaults,
        forall|j: int| j < index ==> #[trigger] range_value(kept.spans, j) == range_value(before.spans, j),
        forall|j: int| 0 <= j ==> #[trigger] range_value(tail.spans, j) == range_value(before.spans, j + index),
        0 <= index,
    ensures
        k < index ==> spec_get_span(kept, k) == spec_get_span(before, k),
        index <= k ==> spec_get_span(tail, k - index) == spec_get_span(before, k),
{
    if k < index {
        assert(range_value(kept.spans, k) == range_value(before.spans, k));
    } else {
        assert(range_value(tail.spans, k - index) == range_value(before.spans, (k - index) + index));
    }
}

/// Equality of attribute lists is an equivalence: reflexive, symmetric and transitive.
pub proof fn lemma_list_equiv(a: AttrsListView, b: AttrsListView, c: AttrsListView)
    ensures
        list_equiv(a, a),
        list_equiv(a, b) ==> list_equiv(b, a),
        list_equiv(a, b) && list_equiv(b, c) ==> list_equiv(a, c),
{
    crate::attrs::lemma_attrs_equiv(a.defaults, b.defaults, c.defaults);
    crate::attrs::lemma_attrs_equiv(b.defaults, a.defaults, c.defaults);
    assert forall|i: int| 0 <= i < a.spans.len() implies override_equiv(a.spans[i].2, a.spans[i].2) by {
        crate::overrides::lemma_override_equiv(a.spans[i].2, a.spans[i].2, a.spans[i].2);
    }
    if list_equiv(a, b) {
        assert forall|i: int| 0 <= i < b.spans.len() implies (#[trigger] b.spans[i]).0 == a.spans[i].0
            && b.spans[i].1 == a.spans[i].1 && override_equiv(b.spans[i].2, a.spans[i].2) by {
            assert(a.spans[i].0 == b.spans[i].0);
            crate::overrides::lemma_override_equiv(a.spans[i].2, b.spans[i].2, a.spans[i].2);
        }
        if list_equiv(b, c) {
            assert forall|i: int| 0 <= i < a.spans.len() implies (#[trigger] a.spans[i]).0
                == c.spans[i].0 && a.spans[i].1 == c.spans[i].1 && override_equiv(
                a.spans[i].2,
                c.spans[i].2,
            ) by {
                assert(a.spans[i].0 == b.spans[i].0);
                assert(b.spans[i].0 == c.spans[i].0);
                crate::overrides::lemma_override_equiv(a.spans[i].2, b.spans[i].2, c.spans[i].2);
            }
        }
    }
}

/// Equal attribute lists have equal defaults: lists whose line defaults
/// differ are never equal, whatever spans they hold.
pub proof fn lemma_equal_lists_have_equal_defaults(a: AttrsListView, b: AttrsListView)
    ensures
        list_equiv(a, b) ==> attrs_equiv(a.defaults, b.defaults),
        a.spans.len() == 0 && b.spans.len() == 0 ==> (list_equiv(a, b) <==> attrs_equiv(
            a.defaults,
            b.defaults,
        )),
{
}

/// Equal attribute lists read alike: at every position they give equal
/// attributes.
pub proof fn lemma_equal_lists_read_alike(a: AttrsListView, b: AttrsListView, k: int)
    requires
        spans_coalesced(a.spans),
        spans_coalesced(b.spans),
        list_equiv(a, b),
    ensures
        attrs_equiv(spec_get_span(a, k), spec_get_span(b, k)),
{
    if exists|i: int| covers(a.spans, i, k) {
        let i = choose|i: int| covers(a.spans, i, k);
        lemma_range_value(a.spans, i, k);
        assert(covers(b.spans, i, k));
        lemma_range_value(b.spans, i, k);
        crate::overrides::lemma_merge_respects_equality(
            a.spans[i].2,
            b.spans[i].2,
            a.defaults,
            b.defaults,
        );
    } else {
        assert forall|i: int| !covers(b.spans, i, k) by {
            if covers(b.spans, i, k) {
                assert(covers(a.spans, i, k));
            }
        }
    }
}

} // verus!
