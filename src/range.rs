use vstd::prelude::*;
use crate::value::{float_le, float_lt, is_nan, less_than, ZERO};

verus! {

/// The values of column `idx`, row by row.
pub open spec fn column_values(rows: Seq<Vec<u32>>, idx: int) -> Seq<u32> {
    Seq::new(rows.len(), |i: int| rows[i]@[idx])
}

/// The values of the columns `cols`, one column after another.
pub open spec fn selected(rows: Seq<Vec<u32>>, cols: Seq<usize>) -> Seq<u32>
    decreases cols.len(),
{
    if cols.len() == 0 {
        Seq::empty()
    } else {
        selected(rows, cols.drop_last()) + column_values(rows, cols.last() as int)
    }
}

/// Every row has column `idx`.
pub open spec fn has_column(rows: Seq<Vec<u32>>, idx: int) -> bool {
    forall|i: int| 0 <= i < rows.len() ==> idx < #[trigger] rows[i]@.len()
}

/// One step of the running minimum: `v` replaces `acc` only where `v < acc`.
pub open spec fn step_min(acc: u32, v: u32) -> u32 {
    if float_lt(v, acc) {
        v
    } else {
        acc
    }
}

/// One step of the running maximum: `v` replaces `acc` only where `v > acc`.
pub open spec fn step_max(acc: u32, v: u32) -> u32 {
    if float_lt(acc, v) {
        v
    } else {
        acc
    }
}

/// The running minimum of `s`, from the left, starting at `acc`.
pub open spec fn fold_min(s: Seq<u32>, acc: u32) -> u32
    decreases s.len(),
{
    if s.len() == 0 {
        acc
    } else {
        step_min(fold_min(s.drop_last(), acc), s.last())
    }
}

/// The running maximum of `s`, from the left, starting at `acc`.
pub open spec fn fold_max(s: Seq<u32>, acc: u32) -> u32
    decreases s.len(),
{
    if s.len() == 0 {
        acc
    } else {
        step_max(fold_max(s.drop_last(), acc), s.last())
    }
}

/// The axis range of a sequence of values: both ends are running folds seeded
/// at `+0.0`, so the range always takes in zero.
pub open spec fn baseline_range(s: Seq<u32>) -> (u32, u32) {
    (fold_min(s, ZERO), fold_max(s, ZERO))
}

proof fn lemma_push_drop_last(s: Seq<u32>, v: u32)
    ensures
        s.push(v).drop_last() == s,
        s.push(v).last() == v,
{
    assert(s.push(v).drop_last() =~= s);
}

/// The range of column `idx` of the table rows `arr`: the minimum and the
/// maximum of its values, each a fold seeded at `+0.0`.
pub fn get_minmax_vec(arr: &Vec<Vec<u32>>, idx: usize) -> (r: (u32, u32))
    requires
        has_column(arr@, idx as int),
    ensures
        r == baseline_range(column_values(arr@, idx as int)),
        float_le(r.0, r.1),
{
    let mut lo: u32 = ZERO;
    let mut hi: u32 = ZERO;
    let mut i: usize = 0;
    while i < arr.len()
        invariant
            0 <= i <= arr@.len(),
            has_column(arr@, idx as int),
            lo == fold_min(column_values(arr@, idx as int).take(i as int), ZERO),
            hi == fold_max(column_values(arr@, idx as int).take(i as int), ZERO),
        decreases arr@.len() - i,
    {
        let v = arr[i][idx];
        let ghost before = column_values(arr@, idx as int).take(i as int);
        proof {
            assert(column_values(arr@, idx as int).take(i + 1) =~= before.push(v));
            lemma_push_drop_last(before, v);
        }
        if less_than(v, lo) {
            lo = v;
        }
        if less_than(hi, v) {
            hi = v;
        }
        i += 1;
    }
    assert(column_values(arr@, idx as int).take(i as int) =~= column_values(arr@, idx as int));
    proof {
        lemma_range_bounds(column_values(arr@, idx as int));
    }
    (lo, hi)
}

/// The range shared by the columns `cols` of the table rows `arr`: the same
/// folds, seeded at `+0.0`, over all of their values.
pub fn get_minmax_all(arr: &Vec<Vec<u32>>, cols: &Vec<usize>) -> (r: (u32, u32))
    requires
        forall|k: int| 0 <= k < cols@.len() ==> has_column(arr@, #[trigger] cols@[k] as int),
    ensures
        r == baseline_range(selected(arr@, cols@)),
        float_le(r.0, r.1),
{
    let mut lo: u32 = ZERO;
    let mut hi: u32 = ZERO;
    let mut k: usize = 0;
    while k < cols.len()
        invariant
            0 <= k <= cols@.len(),
            forall|m: int| 0 <= m < cols@.len() ==> has_column(arr@, #[trigger] cols@[m] as int),
            lo == fold_min(selected(arr@, cols@.take(k as int)), ZERO),
            hi == fold_max(selected(arr@, cols@.take(k as int)), ZERO),
        decreases cols@.len() - k,
    {
        let c = cols[k];
        assert(has_column(arr@, cols@[k as int] as int));
        let ghost done = selected(arr@, cols@.take(k as int));
        let mut i: usize = 0;
        while i < arr.len()
            invariant
                0 <= i <= arr@.len(),
                has_column(arr@, c as int),
                lo == fold_min(done + column_values(arr@, c as int).take(i as int), ZERO),
                hi == fold_max(done + column_values(arr@, c as int).take(i as int), ZERO),
            decreases arr@.len() - i,
        {
            let v = arr[i][c];
            let ghost before = done + column_values(arr@, c as int).take(i as int);
            proof {
                assert(done + column_values(arr@, c as int).take(i + 1) =~= before.push(v));
                lemma_push_drop_last(before, v);
            }
            if less_than(v, lo) {
                lo = v;
            }
            if less_than(hi, v) {
                hi = v;
            }
            i += 1;
        }
        proof {
            assert(column_values(arr@, c as int).take(i as int) =~= column_values(arr@, c as int));
            assert(cols@.take(k + 1).drop_last() =~= cols@.take(k as int));
        }
        k += 1;
    }
    assert(cols@.take(k as int) =~= cols@);
    proof {
        lemma_range_bounds(selected(arr@, cols@));
    }
    (lo, hi)
}

proof fn lemma_fold_min_stays_zero(s: Seq<u32>)
    requires
        forall|i: int| 0 <= i < s.len() ==> !float_lt(#[trigger] s[i], ZERO),
    ensures
        fold_min(s, ZERO) == ZERO,
    decreases s.len(),
{
    if s.len() > 0 {
        lemma_fold_min_stays_zero(s.drop_last());
    }
}

proof fn lemma_fold_max_stays_zero(s: Seq<u32>)
    requires
        forall|i: int| 0 <= i < s.len() ==> !float_lt(ZERO, #[trigger] s[i]),
    ensures
        fold_max(s, ZERO) == ZERO,
    decreases s.len(),
{
    if s.len() > 0 {
        lemma_fold_max_stays_zero(s.drop_last());
    }
}

proof fn lemma_fold_min_bounds(s: Seq<u32>)
    ensures
        float_le(fold_min(s, ZERO), ZERO),
        forall|i: int|
            0 <= i < s.len() && !is_nan(#[trigger] s[i]) ==> float_le(fold_min(s, ZERO), s[i]),
    decreases s.len(),
{
    if s.len() > 0 {
        let t = s.drop_last();
        lemma_fold_min_bounds(t);
        assert forall|i: int| 0 <= i < s.len() && !is_nan(#[trigger] s[i]) implies float_le(
            fold_min(s, ZERO),
            s[i],
        ) by {
            if i < s.len() - 1 {
                assert(s[i] == t[i]);
            }
        }
    }
}

proof fn lemma_fold_max_bounds(s: Seq<u32>)
    ensures
        float_le(ZERO, fold_max(s, ZERO)),
        forall|i: int|
            0 <= i < s.len() && !is_nan(#[trigger] s[i]) ==> float_le(s[i], fold_max(s, ZERO)),
    decreases s.len(),
{
    if s.len() > 0 {
        let t = s.drop_last();
        lemma_fold_max_bounds(t);
        assert forall|i: int| 0 <= i < s.len() && !is_nan(#[trigger] s[i]) implies float_le(
            s[i],
            fold_max(s, ZERO),
        ) by {
            if i < s.len() - 1 {
                assert(s[i] == t[i]);
            }
        }
    }
}

/// A range is ordered and takes in zero and every value that is not a NaN:
/// `min <= 0 <= max`, and `min <= v <= max` for each such value `v`.
pub proof fn lemma_range_bounds(s: Seq<u32>)
    ensures
        float_le(baseline_range(s).0, ZERO),
        float_le(ZERO, baseline_range(s).1),
        float_le(baseline_range(s).0, baseline_range(s).1),
        forall|i: int|
            0 <= i < s.len() && !is_nan(#[trigger] s[i]) ==> float_le(baseline_range(s).0, s[i])
                && float_le(s[i], baseline_range(s).1),
{
    lemma_fold_min_bounds(s);
    lemma_fold_max_bounds(s);
}

/// Baseline zero: where every value of a column is at least zero, its range
/// starts at exactly `+0.0`; where every value is at most zero, its range
/// ends at exactly `+0.0`.
pub proof fn lemma_range_baseline_zero(rows: Seq<Vec<u32>>, idx: int)
    requires
        has_column(rows, idx),
    ensures
        (forall|i: int| 0 <= i < rows.len() ==> float_le(ZERO, #[trigger] column_values(rows, idx)[i]))
            ==> baseline_range(column_values(rows, idx)).0 == ZERO,
        (forall|i: int| 0 <= i < rows.len() ==> float_le(#[trigger] column_values(rows, idx)[i], ZERO))
            ==> baseline_range(column_values(rows, idx)).1 == ZERO,
{
    let s = column_values(rows, idx);
    if forall|i: int| 0 <= i < rows.len() ==> float_le(ZERO, #[trigger] column_values(rows, idx)[i]) {
        assert forall|i: int| 0 <= i < s.len() implies !float_lt(#[trigger] s[i], ZERO) by {
            assert(float_le(ZERO, column_values(rows, idx)[i]));
        }
        lemma_fold_min_stays_zero(s);
    }
    if forall|i: int| 0 <= i < rows.len() ==> float_le(#[trigger] column_values(rows, idx)[i], ZERO) {
        assert forall|i: int| 0 <= i < s.len() implies !float_lt(ZERO, #[trigger] s[i]) by {
            assert(float_le(column_values(rows, idx)[i], ZERO));
        }
        lemma_fold_max_stays_zero(s);
    }
}

} // verus!
