use rangemap::RangeMap;
use vstd::prelude::*;

verus! {

/// Whether a half-open range `[start, end)` of position `i` in `s` holds `k`.
pub open spec fn covers<V>(s: Seq<(usize, usize, V)>, i: int, k: int) -> bool {
    0 <= i < s.len() && s[i].0 <= k < s[i].1
}

/// The value that the ranges in `s` give position `k`, if some range holds it.
pub open spec fn range_value<V>(s: Seq<(usize, usize, V)>, k: int) -> Option<V> {
    if exists|i: int| covers(s, i, k) {
        Some(s[choose|i: int| covers(s, i, k)].2)
    } else {
        None
    }
}

/// The range of `s`, with its value, that holds position `k`, if some range holds it.
pub open spec fn range_entry<V>(s: Seq<(usize, usize, V)>, k: int) -> Option<(usize, usize, V)> {
    if exists|i: int| covers(s, i, k) {
        Some(s[choose|i: int| covers(s, i, k)])
    } else {
        None
    }
}

/// The ranges are non-empty, in ascending order and do not overlap.
pub open spec fn ranges_ordered<V>(s: Seq<(usize, usize, V)>) -> bool {
    &&& forall|i: int| 0 <= i < s.len() ==> #[trigger] s[i].0 < s[i].1
    &&& forall|i: int, j: int| 0 <= i < j < s.len() ==> #[trigger] s[i].1 <= #[trigger] s[j].0
}

/// The ranges are ordered, and two ranges that touch hold different values
/// (touching ranges with equal values are kept as one).
pub open spec fn ranges_coalesced(s: Seq<(usize, usize, u64)>) -> bool {
    &&& ranges_ordered(s)
    &&& forall|i: int|
        0 <= i && i + 1 < s.len() && #[trigger] s[i].1 == s[i + 1].0 ==> s[i].2 != s[i + 1].2
}

/// In ordered ranges, the range that holds a position gives its value.
pub proof fn lemma_range_value<V>(s: Seq<(usize, usize, V)>, i: int, k: int)
    requires
        ranges_ordered(s),
        covers(s, i, k),
    ensures
        range_value(s, k) == Some(s[i].2),
        range_entry(s, k) == Some(s[i]),
{
    let c = choose|c: int| covers(s, c, k);
    assert(covers(s, c, k));
    if c < i {
        assert(s[c].1 <= s[i].0);
    } else if i < c {
        assert(s[i].1 <= s[c].0);
    }
}

/// The ranges stored in a `RangeMap` of positions, with their values, in ascending order.
pub uninterp spec fn span_entries(m: RangeMap<usize, u64>) -> Seq<(usize, usize, u64)>;

#[verifier::external_type_specification]
#[verifier::external_body]
#[verifier::reject_recursive_types(K)]
#[verifier::reject_recursive_types(V)]
pub struct ExRangeMap<K, V>(RangeMap<K, V>);

/// Calls `RangeMap::new`: a map that stores no range.
#[verifier::external_body]
pub(crate) fn span_map_new() -> (m: RangeMap<usize, u64>)
    ensures
        span_entries(m) == Seq::<(usize, usize, u64)>::empty(),
{
    RangeMap::new()
}


/// Calls `RangeMap::insert` with `start..end` (which panics on an empty range):
/// afterwards every position of the range has `value`, every other position
/// keeps what it had, and the stored ranges are ordered and coalesced, as the
/// crate's documentation says of every map.
#[verifier::external_body]
pub(crate) fn span_map_insert(m: &mut RangeMap<usize, u64>, start: usize, end: usize, value: u64)
    requires
        start < end,
    ensures
        ranges_coalesced(span_entries(*final(m))),
        forall|k: int|
            #![trigger range_value(span_entries(*final(m)), k)]
            range_value(span_entries(*final(m)), k) == if start <= k < end {
                Some(value)
            } else {
                range_value(span_entries(*old(m)), k)
            },
{
    m.insert(start..end, value)
}

/// Calls `RangeMap::remove` with `start..end` (which panics on an empty range):
/// afterwards no position of the range has a value, every other position keeps
/// what it had, and the stored ranges are ordered and coalesced.
#[verifier::external_body]
pub(crate) fn span_map_remove(m: &mut RangeMap<usize, u64>, start: usize, end: usize)
    requires
        start < end,
    ensures
        ranges_coalesced(span_entries(*final(m))),
        forall|k: int|
            #![trigger range_value(span_entries(*final(m)), k)]
            range_value(span_entries(*final(m)), k) == if start <= k < end {
                None
            } else {
                range_value(span_entries(*old(m)), k)
            },
{
    m.remove(start..end)
}

/// Calls `RangeMap::get`: the value of the stored range that holds `key`, if any.
#[verifier::external_body]
pub(crate) fn span_map_get(m: &RangeMap<usize, u64>, key: usize) -> (r: Option<u64>)
    ensures
        r == range_value(span_entries(*m), key as int),
{
    m.get(&key).copied()
}

/// Calls `RangeMap::get_key_value`, taking the range apart: the stored range
/// that holds `key`, with its value, if any.
#[verifier::external_body]
pub(crate) fn span_map_get_entry(m: &RangeMap<usize, u64>, key: usize) -> (r: Option<
    (usize, usize, u64),
>)
    ensures
        r == range_entry(span_entries(*m), key as int),
{
    m.get_key_value(&key).map(|(range, value)| (range.start, range.end, *value))
}

/// Calls `RangeMap::len`: the number of stored ranges.
#[verifier::external_body]
pub(crate) fn span_map_len(m: &RangeMap<usize, u64>) -> (r: usize)
    ensures
        r == span_entries(*m).len(),
{
    m.len()
}

/// In ordered ranges, two ranges that hold neighbouring positions `x - 1`
/// and `x` are the same range, or neighbours that touch at `x`.
pub proof fn lemma_neighbours<V>(s: Seq<(usize, usize, V)>, c1: int, c2: int, x: int)
    requires
        ranges_ordered(s),
        covers(s, c1, x - 1),
        covers(s, c2, x),
        c1 != c2,
    ensures
        c2 == c1 + 1,
        s[c1].1 == x,
        s[c2].0 == x,
{
    if c2 < c1 {
        assert(s[c2].1 <= s[c1].0);
    }
    assert(s[c1].1 <= s[c2].0);
    if c2 > c1 + 1 {
        assert(s[c1].1 <= s[c1 + 1].0);
        assert(s[c1 + 1].1 <= s[c2].0);
    }
}

/// Calls `RangeMap::iter`, taking each `(range, value)` as `(start, end, value)`:
/// the stored ranges in ascending order, ordered and coalesced.
#[verifier::external_body]
pub(crate) fn span_map_entries(m: &RangeMap<usize, u64>) -> (r: Vec<(usize, usize, u64)>)
    ensures
        r@ == span_entries(*m),
        ranges_coalesced(r@),
{
    m.iter().map(|(range, value)| (range.start, range.end, *value)).collect()
}

/// Calls `<RangeMap as Clone>::clone`: the copy stores the same ranges and values.
#[verifier::external_body]
pub(crate) fn span_map_clone(m: &RangeMap<usize, u64>) -> (r: RangeMap<usize, u64>)
    ensures
        span_entries(r) == span_entries(*m),
{
    m.clone()
}

} // verus!
