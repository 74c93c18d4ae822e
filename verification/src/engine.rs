//! The GROUP BY / aggregate evaluation engine.
//!
//! `aggregate` consumes already-materialized input rows laid out as the
//! aggregate input columns followed by the grouping-key columns, groups
//! them by structural equality of their trailing key values, feeds every
//! leading value to the matching accumulator of its group, and emits one
//! output row per distinct group: the finalized aggregate results followed
//! by the key values. Groups are kept and emitted in first-seen order, so
//! the whole computation is a pure function of the input sequence; the
//! model below states it exactly.
//!
//! Aggregating zero rows with zero grouping columns synthesizes a single
//! group with an empty key and never-fed accumulators, so that a whole-
//! table aggregate over an empty input still yields one row.

use vstd::prelude::*;

use crate::accumulator::AccV;
use crate::accumulator::Accumulator;
use crate::accumulator::Aggregate;
use crate::accumulator::EvaluationError;
use crate::accumulator::acc_final;
use crate::accumulator::acc_init;
use crate::accumulator::acc_step;
use crate::value::Value;
use crate::value::ValueV;
use crate::value::value_eq;
use crate::value::value_clone;

verus! {

/// What the engine hands back: the output column labels, and one row per
/// group.
pub struct QueryOutput {
    pub columns: Vec<Option<String>>,
    pub rows: Vec<Vec<Value>>,
}

/// The fresh accumulator states for a sequence of aggregate kinds.
pub open spec fn accs_init(aggs: Seq<Aggregate>) -> Seq<AccV> {
    Seq::new(aggs.len(), |i: int| acc_init(aggs[i]))
}

/// One accumulate step of every accumulator of a group, fed pairwise with
/// a row's leading values.
pub open spec fn accs_step(accs: Seq<AccV>, vals: Seq<ValueV>) -> Seq<AccV> {
    Seq::new(accs.len(), |i: int| acc_step(accs[i], vals[i]))
}

/// The index of the first entry holding the key, or -1 when absent.
pub open spec fn find_key(t: Seq<(Seq<ValueV>, Seq<AccV>)>, k: Seq<ValueV>) -> int
    decreases t.len(),
{
    if t.len() == 0 {
        -1
    } else if t[0].0 == k {
        0
    } else {
        let r = find_key(t.drop_first(), k);
        if r < 0 {
            -1
        } else {
            r + 1
        }
    }
}

/// How one input row changes the group table: its trailing key selects the
/// group (appending a fresh one on first sight), and its leading values
/// feed that group's accumulators.
pub open spec fn table_step(
    t: Seq<(Seq<ValueV>, Seq<AccV>)>,
    row: Seq<ValueV>,
    n: int,
    aggs: Seq<Aggregate>,
) -> Seq<(Seq<ValueV>, Seq<AccV>)> {
    let vals = row.take(n);
    let k = row.skip(n);
    let j = find_key(t, k);
    if j < 0 {
        t.push((k, accs_step(accs_init(aggs), vals)))
    } else {
        t.update(j, (k, accs_step(t[j].1, vals)))
    }
}

/// The group table after consuming the rows in order: one entry per
/// distinct key, in first-seen order.
pub open spec fn table_fold(rows: Seq<Seq<ValueV>>, n: int, aggs: Seq<Aggregate>) -> Seq<
    (Seq<ValueV>, Seq<AccV>),
>
    decreases rows.len(),
{
    if rows.len() == 0 {
        Seq::empty()
    } else {
        table_step(table_fold(rows.drop_last(), n, aggs), rows.last(), n, aggs)
    }
}

/// The table the output is drained from: as folded, except that zero rows
/// with zero grouping columns synthesize one never-fed group with the
/// empty key.
pub open spec fn final_table(
    rows: Seq<Seq<ValueV>>,
    n: int,
    ncols: int,
    aggs: Seq<Aggregate>,
) -> Seq<(Seq<ValueV>, Seq<AccV>)> {
    let t = table_fold(rows, n, aggs);
    if t.len() == 0 && n == ncols {
        seq![(Seq::<ValueV>::empty(), accs_init(aggs))]
    } else {
        t
    }
}

/// One output row per group: the finalized aggregate results, then the
/// group's key values.
pub open spec fn output_rows(t: Seq<(Seq<ValueV>, Seq<AccV>)>) -> Seq<Seq<ValueV>> {
    Seq::new(t.len(), |i: int| Seq::new(t[i].1.len(), |j: int| acc_final(t[i].1[j])) + t[i].0)
}

/// The output column labels: aggregate result columns carry no source
/// label, grouping columns keep theirs.
pub open spec fn output_columns(cols: Seq<Option<String>>, n: int) -> Seq<Option<String>> {
    Seq::new(cols.len(), |i: int| if i < n { None } else { cols[i] })
}

/// The keys of a group table, in entry order.
pub open spec fn table_keys(t: Seq<(Seq<ValueV>, Seq<AccV>)>) -> Seq<Seq<ValueV>> {
    Seq::new(t.len(), |i: int| t[i].0)
}

/// The group key of each input row: its values from column `n` on.
pub open spec fn row_keys(rows: Seq<Seq<ValueV>>, n: int) -> Seq<Seq<ValueV>> {
    Seq::new(rows.len(), |i: int| rows[i].skip(n))
}

/// A found key is found within the table, at an entry holding it.
proof fn lemma_find_key_hit(t: Seq<(Seq<ValueV>, Seq<AccV>)>, k: Seq<ValueV>)
    requires
        find_key(t, k) >= 0,
    ensures
        find_key(t, k) < t.len(),
        t[find_key(t, k)].0 == k,
    decreases t.len(),
{
    if t.len() == 0 {
    } else if t[0].0 == k {
    } else {
        if find_key(t.drop_first(), k) >= 0 {
            lemma_find_key_hit(t.drop_first(), k);
        }
    }
}

/// `find_key` succeeds exactly on the keys the table holds.
proof fn lemma_find_key_present(t: Seq<(Seq<ValueV>, Seq<AccV>)>, k: Seq<ValueV>)
    ensures
        (find_key(t, k) >= 0) <==> table_keys(t).contains(k),
    decreases t.len(),
{
    if t.len() == 0 {
    } else if t[0].0 == k {
        assert(table_keys(t)[0] == k);
    } else {
        lemma_find_key_present(t.drop_first(), k);
        assert(table_keys(t.drop_first()) =~= table_keys(t).drop_first());
        if table_keys(t).contains(k) {
            let i = table_keys(t).lemma_contains_to_index(k);
            assert(i != 0);
            assert(table_keys(t).drop_first()[i - 1] == k);
            assert(table_keys(t).drop_first().contains(k));
        }
        if table_keys(t).drop_first().contains(k) {
            let i = table_keys(t).drop_first().lemma_contains_to_index(k);
            assert(table_keys(t)[i + 1] == k);
            assert(table_keys(t).contains(k));
        }
    }
}

/// Folding the rows yields a table holding each distinct row key exactly
/// once.
proof fn lemma_table_fold_keys(rows: Seq<Seq<ValueV>>, n: int, aggs: Seq<Aggregate>)
    ensures
        table_keys(table_fold(rows, n, aggs)).no_duplicates(),
        table_keys(table_fold(rows, n, aggs)).to_set() == row_keys(rows, n).to_set(),
    decreases rows.len(),
{
    broadcast use vstd::seq_lib::lemma_seq_contains_after_push;
    broadcast use vstd::set::group_set_axioms;

    if rows.len() == 0 {
        assert(table_keys(table_fold(rows, n, aggs)) =~= row_keys(rows, n));
    } else {
        let rest = rows.drop_last();
        lemma_table_fold_keys(rest, n, aggs);
        let prev = table_fold(rest, n, aggs);
        let row = rows.last();
        let k = row.skip(n);
        let t = table_fold(rows, n, aggs);
        lemma_find_key_present(prev, k);
        assert(row_keys(rows, n) =~= row_keys(rest, n).push(k));
        row_keys(rest, n).lemma_push_to_set_commute(k);
        let j = find_key(prev, k);
        if j < 0 {
            assert(table_keys(t) =~= table_keys(prev).push(k));
            table_keys(prev).lemma_push_to_set_commute(k);
            assert(!table_keys(prev).contains(k));
            let tk = table_keys(t);
            assert forall|p: int, q: int|
                0 <= p < tk.len() && 0 <= q < tk.len() && p != q implies tk[p] != tk[q] by {
                if p < tk.len() - 1 && q < tk.len() - 1 {
                    assert(tk[p] == table_keys(prev)[p]);
                    assert(tk[q] == table_keys(prev)[q]);
                } else if q == tk.len() - 1 {
                    if tk[p] == k {
                        assert(table_keys(prev)[p] == k);
                        assert(table_keys(prev).contains(k));
                    }
                } else {
                    if tk[q] == k {
                        assert(table_keys(prev)[q] == k);
                        assert(table_keys(prev).contains(k));
                    }
                }
            }
        } else {
            lemma_find_key_hit(prev, k);
            assert(table_keys(t) =~= table_keys(prev));
            assert(table_keys(prev).contains(k));
            assert(row_keys(rest, n).to_set().contains(k));
            assert(row_keys(rest, n).to_set().insert(k) =~= row_keys(rest, n).to_set());
        }
    }
}

/// LAW: the output holds one row per distinct group key observed in the
/// input — except that zero input rows with zero grouping columns yield
/// exactly one synthesized row of never-fed aggregates.
pub proof fn lemma_output_row_count(rows: Seq<Seq<ValueV>>, n: int, ncols: int, aggs: Seq<Aggregate>)
    ensures
        rows.len() == 0 && n == ncols ==> output_rows(final_table(rows, n, ncols, aggs)).len()
            == 1,
        !(rows.len() == 0 && n == ncols) ==> output_rows(final_table(rows, n, ncols, aggs)).len()
            == row_keys(rows, n).to_set().len(),
{
    broadcast use vstd::set::group_set_axioms;
    broadcast use vstd::seq_lib::seq_to_set_is_finite;

    lemma_table_fold_keys(rows, n, aggs);
    let t = table_fold(rows, n, aggs);
    table_keys(t).unique_seq_to_set();
    if rows.len() == 0 {
        if n != ncols {
            assert(row_keys(rows, n) =~= table_keys(t));
        }
    } else {
        let prev = table_fold(rows.drop_last(), n, aggs);
        let k = rows.last().skip(n);
        if find_key(prev, k) >= 0 {
            lemma_find_key_hit(prev, k);
        }
        assert(t.len() > 0);
        assert(output_rows(t).len() == table_keys(t).len());
    }
}

/// LAW: aggregation is deterministic up to output order — the multiset of
/// output rows is a function of the input rows alone, so two runs over
/// the same input agree on it however their rows are ordered.
pub proof fn lemma_aggregate_deterministic(
    rows: Seq<Seq<ValueV>>,
    n: int,
    ncols: int,
    aggs: Seq<Aggregate>,
    out1: Seq<Seq<ValueV>>,
    out2: Seq<Seq<ValueV>>,
)
    requires
        out1 == output_rows(final_table(rows, n, ncols, aggs)),
        out2 == output_rows(final_table(rows, n, ncols, aggs)),
    ensures
        out1.to_multiset() == out2.to_multiset(),
{
}

/// The exec table, seen as the model's table.
pub open spec fn table_view(keys: Seq<Vec<Value>>, groups: Seq<Vec<Accumulator>>) -> Seq<
    (Seq<ValueV>, Seq<AccV>),
>
    recommends
        keys.len() == groups.len(),
{
    Seq::new(keys.len(), |i: int| (keys[i].deep_view(), groups[i].deep_view()))
}

/// A linear scan that stops at the first hit computes `find_key`.
proof fn lemma_find_key_at(t: Seq<(Seq<ValueV>, Seq<AccV>)>, k: Seq<ValueV>, j: int)
    requires
        0 <= j <= t.len(),
        forall|i: int| 0 <= i < j ==> (#[trigger] t[i]).0 != k,
        j < t.len() ==> t[j].0 == k,
    ensures
        j < t.len() ==> find_key(t, k) == j,
        j == t.len() ==> find_key(t, k) == -1,
    decreases t.len(),
{
    if t.len() == 0 {
    } else if t[0].0 == k {
        assert(j == 0);
    } else {
        let tt = t.drop_first();
        assert(forall|i: int| 0 <= i < j - 1 ==> (#[trigger] tt[i]).0 == t[i + 1].0);
        if j == 0 {
            lemma_find_key_at(tt, k, 0);
        } else {
            lemma_find_key_at(tt, k, j - 1);
        }
    }
}

/// Decides element-wise structural equality of two keys.
fn keys_equal(a: &Vec<Value>, b: &Vec<Value>) -> (r: bool)
    ensures
        r == (a.deep_view() == b.deep_view()),
{
    if a.len() != b.len() {
        assert(a.deep_view().len() == a@.len());
        assert(b.deep_view().len() == b@.len());
        return false;
    }
    let mut i: usize = 0;
    while i < a.len()
        invariant
            i <= a.len(),
            a@.len() == b@.len(),
            forall|j: int| 0 <= j < i ==> a.deep_view()[j] == b.deep_view()[j],
        decreases a.len() - i,
    {
        if !value_eq(&a[i], &b[i]) {
            assert(a.deep_view()[i as int] != b.deep_view()[i as int]);
            return false;
        }
        i += 1;
    }
    proof {
        assert(a.deep_view() =~= b.deep_view());
    }
    true
}

/// Finds the group holding the key, if any.
fn find_group(keys: &Vec<Vec<Value>>, groups: &Vec<Vec<Accumulator>>, key: &Vec<Value>) -> (r:
    Option<usize>)
    requires
        keys@.len() == groups@.len(),
    ensures
        match r {
            Some(j) => j < keys@.len() && find_key(table_view(keys@, groups@), key.deep_view())
                == j && keys@[j as int].deep_view() == key.deep_view(),
            None => find_key(table_view(keys@, groups@), key.deep_view()) == -1,
        },
{
    let ghost t = table_view(keys@, groups@);
    let mut j: usize = 0;
    while j < keys.len()
        invariant
            j <= keys@.len(),
            t == table_view(keys@, groups@),
            keys@.len() == groups@.len(),
            forall|i: int| 0 <= i < j ==> (#[trigger] t[i]).0 != key.deep_view(),
        decreases keys@.len() - j,
    {
        if keys_equal(&keys[j], key) {
            proof {
                lemma_find_key_at(t, key.deep_view(), j as int);
            }
            return Some(j);
        }
        assert(t[j as int].0 != key.deep_view());
        j += 1;
    }
    proof {
        lemma_find_key_at(t, key.deep_view(), j as int);
    }
    None
}

/// Builds the fresh accumulator vector for the aggregate specifications.
fn make_accumulators(aggregates: &Vec<Aggregate>) -> (accs: Vec<Accumulator>)
    ensures
        accs.deep_view() == accs_init(aggregates@),
        accs@.len() == aggregates@.len(),
{
    let mut accs: Vec<Accumulator> = Vec::new();
    let mut i: usize = 0;
    while i < aggregates.len()
        invariant
            i <= aggregates@.len(),
            accs@.len() == i,
            forall|j: int| 0 <= j < i ==> accs.deep_view()[j] == acc_init(
                #[trigger] aggregates@[j],
            ),
        decreases aggregates@.len() - i,
    {
        accs.push(Accumulator::from(&aggregates[i]));
        i += 1;
    }
    proof {
        assert(accs.deep_view() =~= accs_init(aggregates@));
    }
    accs
}

/// Feeds one row's leading values to a group's accumulators, pairwise in
/// specification order.
fn accumulate_row(accs: &mut Vec<Accumulator>, values: &Vec<Value>) -> (r: Result<
    (),
    EvaluationError,
>)
    requires
        old(accs)@.len() == values@.len(),
    ensures
        r is Ok,
        final(accs).deep_view() == accs_step(old(accs).deep_view(), values.deep_view()),
        final(accs)@.len() == old(accs)@.len(),
{
    let ghost orig = accs.deep_view();
    let n: usize = accs.len();
    let mut i: usize = 0;
    while i < n
        invariant
            i <= n,
            n == accs@.len(),
            n == values@.len(),
            orig.len() == n,
            forall|j: int| 0 <= j < i ==> accs.deep_view()[j] == acc_step(
                #[trigger] orig[j],
                values.deep_view()[j],
            ),
            forall|j: int| i <= j < n ==> accs.deep_view()[j] == #[trigger] orig[j],
        decreases n - i,
    {
        let a = &mut accs[i];
        let r = a.accumulate(&values[i]);
        if r.is_err() {
            return r;
        }
        i += 1;
    }
    proof {
        assert(accs.deep_view() =~= accs_step(orig, values.deep_view()));
    }
    Ok(())
}

/// Groups the source rows by their trailing key columns and aggregates
/// their leading columns, one accumulator per aggregate specification per
/// group.
///
/// Each input row is laid out as the aggregate input values followed by
/// the grouping-key values; every row has exactly one value per source
/// column. The output holds one row per distinct group key, in first-seen
/// order: the finalized aggregate results, then the key values. The first
/// N output columns are unlabelled, the remaining ones keep the source
/// labels of the grouping columns. Zero input rows yield zero output rows
/// when grouping columns exist, and exactly one synthesized row of
/// never-fed accumulators when there are none.
pub fn aggregate(columns: Vec<Option<String>>, rows: Vec<Vec<Value>>, aggregates: Vec<Aggregate>)
    -> (r: Result<QueryOutput, EvaluationError>)
    requires
        aggregates@.len() <= columns@.len(),
        forall|i: int| 0 <= i < rows@.len() ==> (#[trigger] rows@[i])@.len() == columns@.len(),
    ensures
        r is Ok,
        r->Ok_0.columns@ == output_columns(columns@, aggregates@.len() as int),
        r->Ok_0.rows.deep_view() == output_rows(
            final_table(
                rows.deep_view(),
                aggregates@.len() as int,
                columns@.len() as int,
                aggregates@,
            ),
        ),
{
    let n: usize = aggregates.len();
    let ncols: usize = columns.len();
    let ghost all_rows: Seq<Seq<ValueV>> = rows.deep_view();
    let ghost nn: int = n as int;
    let mut keys: Vec<Vec<Value>> = Vec::new();
    let mut groups: Vec<Vec<Accumulator>> = Vec::new();
    let mut rows = rows;
    while rows.len() > 0
        invariant
            nn == aggregates@.len(),
            n as int == nn,
            rows@.len() <= all_rows.len(),
            rows.deep_view() == all_rows.skip(all_rows.len() - rows@.len()),
            forall|i: int| 0 <= i < rows@.len() ==> (#[trigger] rows@[i])@.len() == ncols,
            n <= ncols,
            keys@.len() == groups@.len(),
            forall|i: int| 0 <= i < groups@.len() ==> (#[trigger] groups@[i])@.len() == n,
            table_view(keys@, groups@) == table_fold(
                all_rows.take(all_rows.len() - rows@.len()),
                nn,
                aggregates@,
            ),
        decreases rows@.len(),
    {
        let ghost done = all_rows.len() - rows@.len();
        let ghost rows_before = rows.deep_view();
        let mut row = rows.remove(0);
        proof {
            assert(rows.deep_view() =~= rows_before.drop_first());
            assert(rows.deep_view() =~= all_rows.skip(done + 1));
            assert(row.deep_view() == rows_before[0]);
            assert(rows_before[0] == all_rows[done]);
        }
        let ghost row_full = row.deep_view();
        let key = row.split_off(n);
        proof {
            assert(row.deep_view() =~= row_full.take(nn));
            assert(key.deep_view() =~= row_full.skip(nn));
        }
        let ghost t = table_view(keys@, groups@);
        match find_group(&keys, &groups, &key) {
            Some(j) => {
                let ghost groups_before = groups@;
                let g = &mut groups[j];
                let r = accumulate_row(g, &row);
                if r.is_err() {
                    return Err(EvaluationError);
                }
                proof {
                    assert(table_view(keys@, groups@) =~= table_step(
                        t,
                        row_full,
                        nn,
                        aggregates@,
                    ));
                }
            },
            None => {
                let mut accs = make_accumulators(&aggregates);
                let r = accumulate_row(&mut accs, &row);
                if r.is_err() {
                    return Err(EvaluationError);
                }
                keys.push(key);
                groups.push(accs);
                proof {
                    assert(table_view(keys@, groups@) =~= table_step(
                        t,
                        row_full,
                        nn,
                        aggregates@,
                    ));
                }
            },
        }
        proof {
            assert(all_rows.take(done + 1).drop_last() =~= all_rows.take(done));
            assert(all_rows.take(done + 1).last() == all_rows[done]);
        }
    }
    proof {
        assert(all_rows.take(all_rows.len() - rows@.len()) =~= all_rows);
    }
    // Zero rows and zero grouping columns: synthesize the one empty-keyed
    // group, so that a whole-table aggregate still produces a row.
    if keys.len() == 0 && n == ncols {
        let ghost t = table_view(keys@, groups@);
        keys.push(Vec::new());
        groups.push(make_accumulators(&aggregates));
        proof {
            assert(keys@[0].deep_view() =~= Seq::<ValueV>::empty());
            assert(table_view(keys@, groups@) =~= seq![
                (Seq::<ValueV>::empty(), accs_init(aggregates@)),
            ]);
        }
    }
    let ghost t = table_view(keys@, groups@);
    proof {
        assert(t =~= final_table(all_rows, nn, ncols as int, aggregates@));
    }
    // Drain the table: one output row per group, aggregate results first,
    // key values after.
    let mut out_rows: Vec<Vec<Value>> = Vec::new();
    let mut gi: usize = 0;
    while gi < keys.len()
        invariant
            gi <= keys@.len(),
            keys@.len() == groups@.len(),
            t == table_view(keys@, groups@),
            out_rows@.len() == gi,
            forall|i: int| 0 <= i < gi ==> out_rows.deep_view()[i] == #[trigger] output_rows(t)[i],
        decreases keys@.len() - gi,
    {
        let mut out_row: Vec<Value> = Vec::new();
        let glen: usize = groups[gi].len();
        let mut ai: usize = 0;
        while ai < glen
            invariant
                ai <= glen,
                gi < keys@.len(),
                keys@.len() == groups@.len(),
                t == table_view(keys@, groups@),
                glen == groups@[gi as int]@.len(),
                out_row@.len() == ai,
                forall|j: int| 0 <= j < ai ==> out_row.deep_view()[j] == acc_final(
                    #[trigger] groups@[gi as int].deep_view()[j],
                ),
            decreases glen - ai,
        {
            let g = &groups[gi];
            out_row.push(g[ai].aggregate());
            ai += 1;
        }
        let klen: usize = keys[gi].len();
        let mut ki: usize = 0;
        while ki < klen
            invariant
                ki <= klen,
                gi < keys@.len(),
                keys@.len() == groups@.len(),
                t == table_view(keys@, groups@),
                glen == groups@[gi as int]@.len(),
                klen == keys@[gi as int]@.len(),
                out_row@.len() == glen + ki,
                forall|j: int| 0 <= j < glen ==> out_row.deep_view()[j] == acc_final(
                    #[trigger] groups@[gi as int].deep_view()[j],
                ),
                forall|j: int| 0 <= j < ki ==> out_row.deep_view()[glen + j]
                    == #[trigger] keys@[gi as int].deep_view()[j],
            decreases klen - ki,
        {
            let k = &keys[gi];
            out_row.push(value_clone(&k[ki]));
            ki += 1;
        }
        proof {
            assert(out_row.deep_view() =~= output_rows(t)[gi as int]);
        }
        out_rows.push(out_row);
        gi += 1;
    }
    proof {
        assert(out_rows.deep_view() =~= output_rows(t));
    }
    // Output columns: the aggregate result columns are unlabelled, the
    // grouping columns keep their source labels.
    let ghost all_cols = columns@;
    let mut columns = columns;
    let mut out_cols: Vec<Option<String>> = Vec::new();
    let mut ci: usize = 0;
    while columns.len() > 0
        invariant
            ci == all_cols.len() - columns@.len(),
            ci <= all_cols.len(),
            all_cols.len() == ncols as int,
            columns@ == all_cols.skip(ci as int),
            out_cols@.len() == ci,
            forall|j: int| 0 <= j < ci ==> out_cols@[j] == #[trigger] output_columns(
                all_cols,
                nn,
            )[j],
            nn == n as int,
        decreases columns@.len(),
    {
        let ghost cols_before = columns@;
        let c = columns.remove(0);
        proof {
            assert(columns@ =~= all_cols.skip(ci as int + 1));
        }
        if ci < n {
            out_cols.push(None);
        } else {
            out_cols.push(c);
        }
        ci += 1;
    }
    proof {
        assert(out_cols@ =~= output_columns(all_cols, nn));
    }
    Ok(QueryOutput { columns: out_cols, rows: out_rows })
}

} // verus!
