use crate::calendar::Window;
use crate::glyph::{FontMap, Glyph};
use crate::layout::{layout, layout_fits, layout_pairs};
use std::collections::HashSet;
use vstd::prelude::*;

verus! {

broadcast use vstd::std_specs::hash::group_hash_axioms;

/// Commits made on each background date.
pub const FILL_COMMITS: u32 = 1;

/// The dates that pairs name.
pub open spec fn date_set(pairs: Seq<(i64, u32)>) -> Set<i64> {
    Set::new(|d: i64| exists|j: int| 0 <= j < pairs.len() && #[trigger] pairs[j].0 == d)
}

/// The days from `from` to `to`, both included, in order, leaving out those
/// in `painted`.
pub open spec fn fill_days(painted: Set<i64>, from: int, to: int) -> Seq<int>
    decreases to - from + 1,
{
    if to < from {
        seq![]
    } else {
        fill_days(painted, from, to - 1) + if painted.contains(to as i64) {
            seq![]
        } else {
            seq![to]
        }
    }
}

/// Dates paired with the background commit count.
pub open spec fn filled(days: Seq<int>) -> Seq<(i64, u32)> {
    days.map_values(|d: int| (d as i64, FILL_COMMITS))
}

/// The commits to make: nothing unless the operator went ahead; else the
/// painted pairs, then, if asked for, one background pair for each day of the
/// window that is not painted.
pub open spec fn plan_spec(
    font: Map<char, Glyph>,
    word: Seq<char>,
    window: Window,
    fill: bool,
    proceed: bool,
) -> Seq<(i64, u32)> {
    if !proceed {
        seq![]
    } else {
        let paint = layout_pairs(font, word, window.anchor as int);
        paint + if fill {
            filled(fill_days(date_set(paint), window.anchor as int, window.today as int))
        } else {
            seq![]
        }
    }
}

/// The background pass gives each day of the window that is not painted,
/// and no other day, exactly one place, in order of the days.
pub proof fn lemma_fill_days_exact(painted: Set<i64>, from: int, to: int)
    requires
        i64::MIN <= from,
        to <= i64::MAX,
    ensures
        forall|d: int|
            fill_days(painted, from, to).contains(d) <==> (from <= d <= to && !painted.contains(
                d as i64,
            )),
        forall|i: int, j: int|
            0 <= i < j < fill_days(painted, from, to).len() ==> fill_days(painted, from, to)[i]
                < fill_days(painted, from, to)[j],
    decreases to - from + 1,
{
    let s = fill_days(painted, from, to);
    if to >= from {
        lemma_fill_days_exact(painted, from, to - 1);
        let prev = fill_days(painted, from, to - 1);
        let tail = if painted.contains(to as i64) {
            seq![]
        } else {
            seq![to]
        };
        assert(s == prev + tail);
        assert forall|d: int| s.contains(d) <==> (from <= d <= to && !painted.contains(d as i64)) by {
            if s.contains(d) {
                let k = choose|k: int| 0 <= k < s.len() && s[k] == d;
                if k < prev.len() {
                    assert(prev[k] == d);
                    assert(prev.contains(d));
                } else {
                    assert(tail[k - prev.len()] == d);
                }
            }
            if from <= d <= to && !painted.contains(d as i64) {
                if d < to {
                    assert(prev.contains(d));
                    let k = choose|k: int| 0 <= k < prev.len() && prev[k] == d;
                    assert(s[k] == d);
                } else {
                    assert(s[s.len() - 1] == to);
                }
            }
        }
        assert forall|i: int, j: int| 0 <= i < j < s.len() implies s[i] < s[j] by {
            if j >= prev.len() {
                assert(prev.contains(prev[i]));
            }
        }
    }
}

/// The Commit Emitter's plan: the (date, commit count) pairs to make, in
/// order. Nothing when `proceed` is false; else the layout of `word` from the
/// window's anchor, followed, when `fill` holds, by one pair of
/// `FILL_COMMITS` for each day from the anchor to `today` that the layout does
/// not paint.
pub fn commit_plan(font: &FontMap, word: &str, window: Window, fill: bool, proceed: bool) -> (r:
    Vec<(i64, u32)>)
    requires
        layout_fits(word@, window.anchor as int),
        window.today < i64::MAX,
    ensures
        r@ == plan_spec(font@, word@, window, fill, proceed),
{
    if !proceed {
        return Vec::new();
    }
    let mut out = layout(font, word, window.anchor);
    if !fill {
        assert(out@ + seq![] =~= out@);
        return out;
    }
    let ghost paint = out@;
    let mut painted: HashSet<i64> = HashSet::new();
    let mut i: usize = 0;
    while i < out.len()
        invariant
            out@ == paint,
            i <= paint.len(),
            painted@ == date_set(paint.take(i as int)),
        decreases paint.len() - i,
    {
        let d = out[i].0;
        painted.insert(d);
        assert(date_set(paint.take(i + 1)) =~= date_set(paint.take(i as int)).insert(d)) by {
            assert(paint.take(i + 1)[i as int].0 == d);
            assert forall|e: i64| #[trigger]
                date_set(paint.take(i + 1)).contains(e) implies date_set(
                paint.take(i as int),
            ).insert(d).contains(e) by {
                let j = choose|j: int| 0 <= j < i + 1 && #[trigger] paint.take(i + 1)[j].0 == e;
                if j < i {
                    assert(paint.take(i as int)[j].0 == e);
                }
            }
            assert forall|e: i64| #[trigger]
                date_set(paint.take(i as int)).contains(e) implies date_set(
                paint.take(i + 1),
            ).contains(e) by {
                let j = choose|j: int| 0 <= j < i && #[trigger] paint.take(i as int)[j].0 == e;
                assert(paint.take(i + 1)[j].0 == e);
            }
        }
        i += 1;
    }
    assert(paint.take(paint.len() as int) == paint);
    let ghost set = date_set(paint);
    let mut d: i64 = window.anchor;
    while d <= window.today
        invariant
            window.anchor <= d,
            d <= window.today + 1 || d == window.anchor,
            window.today < i64::MAX,
            painted@ == set,
            out@ == paint + filled(fill_days(set, window.anchor as int, d - 1)),
        decreases window.today - d + 1,
    {
        let ghost prev = fill_days(set, window.anchor as int, d - 1);
        let ghost done = out@;
        if !painted.contains(&d) {
            out.push((d, FILL_COMMITS));
            assert(filled(prev + seq![d as int]) =~= filled(prev) + seq![(d, FILL_COMMITS)]);
        } else {
            assert(prev + seq![] =~= prev);
        }
        assert(out@ =~= paint + filled(fill_days(set, window.anchor as int, d as int)));
        d += 1;
    }
    out
}

} // verus!
