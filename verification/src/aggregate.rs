//! The typed transfer table and the daily mint aggregation.
//!
//! Building the table removes exact-duplicate rows — full-row equality,
//! first occurrence kept, original order preserved — which is the backstop
//! for the intentional page-boundary overlap of the fetch loop. Aggregation
//! then flags mint transfers, groups them by calendar day and token name,
//! sums the per-day counts, and keeps the result ordered by day.

use vstd::prelude::*;

use crate::record::{
    is_mint, row_eq, spec_is_mint, MintRow, MintRowModel, TransferRow, TransferRowModel,
};

verus! {

/// The rows of an exec row sequence, as models.
pub open spec fn rows_model(s: Seq<TransferRow>) -> Seq<TransferRowModel> {
    s.map_values(|r: TransferRow| r@)
}

/// The buckets of an exec mint-row sequence, as models.
pub open spec fn mints_model(s: Seq<MintRow>) -> Seq<MintRowModel> {
    s.map_values(|m: MintRow| m@)
}

/// Exact-duplicate removal: keep the first occurrence of every row, in the
/// original order.
pub open spec fn spec_dedup(s: Seq<TransferRowModel>) -> Seq<TransferRowModel>
    decreases s.len(),
{
    if s.len() == 0 {
        Seq::empty()
    } else {
        let prefix = spec_dedup(s.drop_last());
        if s.drop_last().contains(s.last()) {
            prefix
        } else {
            prefix.push(s.last())
        }
    }
}

/// No two entries of the sequence are equal.
pub open spec fn no_dup_rows(s: Seq<TransferRowModel>) -> bool {
    forall|i: int, j: int| 0 <= i < j < s.len() ==> s[i] != s[j]
}

/// A non-empty sequence holds an element exactly when its last entry is that
/// element or the rest holds it.
proof fn lemma_contains_split(s: Seq<TransferRowModel>, x: TransferRowModel)
    requires
        s.len() > 0,
    ensures
        s.contains(x) <==> (s.drop_last().contains(x) || s.last() == x),
{
    if s.contains(x) {
        let i = choose|i: int| 0 <= i < s.len() && s[i] == x;
        if i < s.len() - 1 {
            assert(s.drop_last()[i] == x);
            assert(s.drop_last().contains(x));
        }
    }
    if s.drop_last().contains(x) {
        let i = choose|i: int| 0 <= i < s.drop_last().len() && s.drop_last()[i] == x;
        assert(s[i] == x);
    }
    if s.last() == x {
        assert(s[s.len() - 1] == x);
    }
}

/// Deduplication keeps exactly the elements of its input.
proof fn lemma_dedup_contains(s: Seq<TransferRowModel>, x: TransferRowModel)
    ensures
        spec_dedup(s).contains(x) <==> s.contains(x),
    decreases s.len(),
{
    if s.len() > 0 {
        let dl = s.drop_last();
        lemma_dedup_contains(dl, x);
        lemma_contains_split(s, x);
        if dl.contains(s.last()) {
            lemma_dedup_contains(dl, s.last());
        } else {
            let d = spec_dedup(dl).push(s.last());
            assert(d.drop_last() =~= spec_dedup(dl));
            assert(d.last() == s.last());
            lemma_contains_split(d, x);
        }
    }
}

/// Deduplication leaves no duplicate rows.
proof fn lemma_dedup_no_dups(s: Seq<TransferRowModel>)
    ensures
        no_dup_rows(spec_dedup(s)),
    decreases s.len(),
{
    if s.len() > 0 {
        let dl = s.drop_last();
        lemma_dedup_no_dups(dl);
        if !dl.contains(s.last()) {
            let prefix = spec_dedup(dl);
            let d = prefix.push(s.last());
            assert forall|i: int, j: int| 0 <= i < j < d.len() implies d[i] != d[j] by {
                if j == d.len() - 1 {
                    assert(d[i] == prefix[i]);
                    if d[i] == s.last() {
                        assert(prefix.contains(s.last()));
                        lemma_dedup_contains(dl, s.last());
                    }
                }
            }
        }
    }
}

/// Deduplicating a duplicate-free sequence changes nothing.
proof fn lemma_dedup_of_no_dups(s: Seq<TransferRowModel>)
    requires
        no_dup_rows(s),
    ensures
        spec_dedup(s) == s,
    decreases s.len(),
{
    if s.len() == 0 {
        assert(spec_dedup(s) =~= s);
    } else {
        let dl = s.drop_last();
        assert(forall|i: int, j: int| 0 <= i < j < dl.len() ==> dl[i] == s[i] && dl[j] == s[j]);
        lemma_dedup_of_no_dups(dl);
        if dl.contains(s.last()) {
            let i = choose|i: int| 0 <= i < dl.len() && dl[i] == s.last();
            assert(s[i] == s[s.len() - 1]);
            assert(false);
        }
        assert(spec_dedup(s) =~= s);
    }
}

/// Deduplication is idempotent: running it on its own output is a no-op.
pub proof fn lemma_dedup_idempotent(s: Seq<TransferRowModel>)
    ensures
        spec_dedup(spec_dedup(s)) == spec_dedup(s),
{
    lemma_dedup_no_dups(s);
    lemma_dedup_of_no_dups(spec_dedup(s));
}

/// Whether a row equal to `x` stands among `rows`.
fn contains_row(rows: &Vec<TransferRow>, x: &TransferRow) -> (b: bool)
    ensures
        b == rows_model(rows@).contains(x@),
{
    let mut i: usize = 0;
    while i < rows.len()
        invariant
            0 <= i <= rows@.len(),
            forall|k: int| 0 <= k < i ==> rows_model(rows@)[k] != x@,
        decreases rows@.len() - i,
    {
        if row_eq(&rows[i], x) {
            proof {
                assert(rows_model(rows@)[i as int] == x@);
            }
            return true;
        }
        i = i + 1;
    }
    false
}

/// The full, deduplicated, typed transfer history of one contract for one
/// pipeline run. Its invariant: no two rows are equal across all columns.
pub struct TransferTable {
    pub rows: Vec<TransferRow>,
}

impl TransferTable {
    /// The table's invariant.
    pub open spec fn wf(&self) -> bool {
        no_dup_rows(rows_model(self.rows@))
    }

    /// Build the table from normalized rows, dropping exact duplicates and
    /// keeping first occurrences in their original order.
    pub fn build(rows: &Vec<TransferRow>) -> (t: TransferTable)
        ensures
            rows_model(t.rows@) == spec_dedup(rows_model(rows@)),
            t.wf(),
    {
        let mut out: Vec<TransferRow> = Vec::new();
        let mut i: usize = 0;
        proof {
            assert(rows_model(out@) =~= spec_dedup(rows_model(rows@).take(0)));
        }
        while i < rows.len()
            invariant
                0 <= i <= rows@.len(),
                rows_model(out@) == spec_dedup(rows_model(rows@).take(i as int)),
            decreases rows@.len() - i,
        {
            let ghost taken = rows_model(rows@).take(i + 1);
            proof {
                assert(taken.drop_last() =~= rows_model(rows@).take(i as int));
                assert(taken.last() == rows_model(rows@)[i as int]);
                assert(rows_model(rows@)[i as int] == rows@[i as int]@);
            }
            if contains_row(&out, &rows[i]) {
                proof {
                    lemma_dedup_contains(taken.drop_last(), taken.last());
                }
            } else {
                proof {
                    lemma_dedup_contains(taken.drop_last(), taken.last());
                }
                let ghost prev = out@;
                let r = rows[i].clone();
                out.push(r);
                proof {
                    assert(rows_model(out@) =~= rows_model(prev).push(rows@[i as int]@));
                }
            }
            i = i + 1;
        }
        proof {
            assert(rows_model(rows@).take(rows@.len() as int) =~= rows_model(rows@));
            lemma_dedup_no_dups(rows_model(rows@));
        }
        TransferTable { rows: out }
    }
}

/// Milliseconds in one calendar day.
pub const MS_PER_DAY: u64 = 86400000;

/// The calendar day (whole days since the epoch) a millisecond instant
/// falls on.
pub open spec fn day_of(ts_ms: u64) -> u64 {
    ts_ms / MS_PER_DAY
}

/// Credit one mint on `day` for `name` to the running aggregate: an existing
/// (day, name) bucket is bumped by one; otherwise a fresh bucket of count 1
/// is placed after every bucket of an earlier or equal day.
pub open spec fn spec_bump(acc: Seq<MintRowModel>, day: u64, name: Seq<char>) -> Seq<MintRowModel>
    decreases acc.len(),
{
    if acc.len() == 0 {
        seq![MintRowModel { date_day: day, token_name: name, mint_count: 1 }]
    } else if acc.first().date_day == day && acc.first().token_name == name {
        seq![
            MintRowModel { date_day: day, token_name: name, mint_count: acc.first().mint_count + 1 },
        ] + acc.drop_first()
    } else if acc.first().date_day <= day {
        seq![acc.first()] + spec_bump(acc.drop_first(), day, name)
    } else {
        seq![MintRowModel { date_day: day, token_name: name, mint_count: 1 }] + acc
    }
}

/// The daily mint aggregate of a row sequence: every mint transfer credited
/// to its (day, token name) bucket, buckets ordered by day.
pub open spec fn spec_mint_agg(s: Seq<TransferRowModel>) -> Seq<MintRowModel>
    decreases s.len(),
{
    if s.len() == 0 {
        Seq::empty()
    } else {
        let prev = spec_mint_agg(s.drop_last());
        if spec_is_mint(s.last()) {
            spec_bump(prev, day_of(s.last().timestamp_ms), s.last().token_name)
        } else {
            prev
        }
    }
}

/// The sum of all bucket counts.
pub open spec fn spec_sum(s: Seq<MintRowModel>) -> nat
    decreases s.len(),
{
    if s.len() == 0 {
        0
    } else {
        s.first().mint_count + spec_sum(s.drop_first())
    }
}

/// How many rows of the sequence are mint transfers.
pub open spec fn count_mints(s: Seq<TransferRowModel>) -> nat
    decreases s.len(),
{
    if s.len() == 0 {
        0
    } else {
        count_mints(s.drop_last()) + (if spec_is_mint(s.last()) {
            1nat
        } else {
            0nat
        })
    }
}

/// Bucket days never decrease along the sequence.
pub open spec fn sorted_by_day(s: Seq<MintRowModel>) -> bool {
    forall|i: int, j: int| 0 <= i < j < s.len() ==> s[i].date_day <= s[j].date_day
}

/// No single bucket exceeds the total.
proof fn lemma_count_le_sum(s: Seq<MintRowModel>, i: int)
    requires
        0 <= i < s.len(),
    ensures
        s[i].mint_count <= spec_sum(s),
    decreases i,
{
    if i > 0 {
        assert(s.drop_first()[i - 1] == s[i]);
        lemma_count_le_sum(s.drop_first(), i - 1);
    }
}

/// The total of a bucket put before a sequence.
proof fn lemma_sum_cons(x: MintRowModel, t: Seq<MintRowModel>)
    ensures
        spec_sum(seq![x] + t) == x.mint_count + spec_sum(t),
{
    let s = seq![x] + t;
    assert(s.len() == 1 + t.len());
    assert(s.first() == x);
    assert(s.drop_first() =~= t);
    assert(spec_sum(s) == s.first().mint_count + spec_sum(s.drop_first()));
}

/// Crediting one mint raises the total by exactly one.
proof fn lemma_bump_sum(acc: Seq<MintRowModel>, day: u64, name: Seq<char>)
    ensures
        spec_sum(spec_bump(acc, day, name)) == spec_sum(acc) + 1,
    decreases acc.len(),
{
    let r = spec_bump(acc, day, name);
    let nrow = MintRowModel { date_day: day, token_name: name, mint_count: 1 };
    if acc.len() == 0 {
        assert(r == seq![nrow] + Seq::<MintRowModel>::empty()) by {
            assert(r =~= seq![nrow] + Seq::<MintRowModel>::empty());
        }
        lemma_sum_cons(nrow, Seq::<MintRowModel>::empty());
    } else if acc.first().date_day == day && acc.first().token_name == name {
        let b = MintRowModel {
            date_day: day,
            token_name: name,
            mint_count: acc.first().mint_count + 1,
        };
        lemma_sum_cons(b, acc.drop_first());
        lemma_sum_cons(acc.first(), acc.drop_first());
        assert(seq![acc.first()] + acc.drop_first() =~= acc);
    } else if acc.first().date_day <= day {
        lemma_bump_sum(acc.drop_first(), day, name);
        lemma_sum_cons(acc.first(), spec_bump(acc.drop_first(), day, name));
        lemma_sum_cons(acc.first(), acc.drop_first());
        assert(seq![acc.first()] + acc.drop_first() =~= acc);
    } else {
        lemma_sum_cons(nrow, acc);
    }
}

/// Mint detection correctness: the bucket counts of the aggregate sum to
/// exactly the number of rows whose sender is the zero address; no other
/// row contributes.
pub proof fn lemma_mint_totals(s: Seq<TransferRowModel>)
    ensures
        spec_sum(spec_mint_agg(s)) == count_mints(s),
    decreases s.len(),
{
    if s.len() > 0 {
        lemma_mint_totals(s.drop_last());
        if spec_is_mint(s.last()) {
            lemma_bump_sum(
                spec_mint_agg(s.drop_last()),
                day_of(s.last().timestamp_ms),
                s.last().token_name,
            );
        }
    }
}

/// The counts credited to one (day, token name) key across the aggregate.
pub open spec fn spec_key_count(s: Seq<MintRowModel>, day: u64, name: Seq<char>) -> nat
    decreases s.len(),
{
    if s.len() == 0 {
        0
    } else {
        (if s.first().date_day == day && s.first().token_name == name {
            s.first().mint_count
        } else {
            0
        }) + spec_key_count(s.drop_first(), day, name)
    }
}

/// How many rows of the sequence are mint transfers of this very day and
/// token name.
pub open spec fn count_mints_key(
    s: Seq<TransferRowModel>,
    day: u64,
    name: Seq<char>,
) -> nat
    decreases s.len(),
{
    if s.len() == 0 {
        0
    } else {
        count_mints_key(s.drop_last(), day, name) + (if spec_is_mint(s.last()) && day_of(
            s.last().timestamp_ms,
        ) == day && s.last().token_name == name {
            1nat
        } else {
            0nat
        })
    }
}

/// The key-count of a bucket put before a sequence.
proof fn lemma_key_count_cons(x: MintRowModel, t: Seq<MintRowModel>, day: u64, name: Seq<char>)
    ensures
        spec_key_count(seq![x] + t, day, name) == (if x.date_day == day && x.token_name == name {
            x.mint_count
        } else {
            0nat
        }) + spec_key_count(t, day, name),
{
    let s = seq![x] + t;
    assert(s.len() == 1 + t.len());
    assert(s.first() == x);
    assert(s.drop_first() =~= t);
}

/// Crediting one mint raises its own key's count by one and no other's.
proof fn lemma_bump_key(acc: Seq<MintRowModel>, day: u64, name: Seq<char>, qd: u64, qn: Seq<char>)
    ensures
        spec_key_count(spec_bump(acc, day, name), qd, qn) == spec_key_count(acc, qd, qn) + (
        if qd == day && qn == name {
            1nat
        } else {
            0nat
        }),
    decreases acc.len(),
{
    let nrow = MintRowModel { date_day: day, token_name: name, mint_count: 1 };
    if acc.len() == 0 {
        assert(spec_bump(acc, day, name) =~= seq![nrow] + Seq::<MintRowModel>::empty());
        lemma_key_count_cons(nrow, Seq::<MintRowModel>::empty(), qd, qn);
    } else if acc.first().date_day == day && acc.first().token_name == name {
        let b = MintRowModel {
            date_day: day,
            token_name: name,
            mint_count: acc.first().mint_count + 1,
        };
        lemma_key_count_cons(b, acc.drop_first(), qd, qn);
        lemma_key_count_cons(acc.first(), acc.drop_first(), qd, qn);
        assert(seq![acc.first()] + acc.drop_first() =~= acc);
    } else if acc.first().date_day <= day {
        lemma_bump_key(acc.drop_first(), day, name, qd, qn);
        lemma_key_count_cons(acc.first(), spec_bump(acc.drop_first(), day, name), qd, qn);
        lemma_key_count_cons(acc.first(), acc.drop_first(), qd, qn);
        assert(seq![acc.first()] + acc.drop_first() =~= acc);
    } else {
        lemma_key_count_cons(nrow, acc, qd, qn);
    }
}

/// Aggregation correctness, bucket by bucket: for every calendar day and
/// token name, the counts the aggregate credits to that key sum to exactly
/// the number of mint transfers of that token on that day.
pub proof fn lemma_mint_bucket_totals(
    s: Seq<TransferRowModel>,
    day: u64,
    name: Seq<char>,
)
    ensures
        spec_key_count(spec_mint_agg(s), day, name) == count_mints_key(s, day, name),
    decreases s.len(),
{
    if s.len() > 0 {
        lemma_mint_bucket_totals(s.drop_last(), day, name);
        if spec_is_mint(s.last()) {
            lemma_bump_key(
                spec_mint_agg(s.drop_last()),
                day_of(s.last().timestamp_ms),
                s.last().token_name,
                day,
                name,
            );
        }
    }
}

/// Crediting a mint on a day not before `lo` keeps every bucket at or
/// after `lo`.
proof fn lemma_bump_lower(acc: Seq<MintRowModel>, day: u64, name: Seq<char>, lo: u64)
    requires
        lo <= day,
        forall|k: int| 0 <= k < acc.len() ==> lo <= #[trigger] acc[k].date_day,
    ensures
        forall|k: int|
            0 <= k < spec_bump(acc, day, name).len() ==> lo <= #[trigger] spec_bump(
                acc,
                day,
                name,
            )[k].date_day,
    decreases acc.len(),
{
    let r = spec_bump(acc, day, name);
    if acc.len() == 0 {
    } else if acc.first().date_day == day && acc.first().token_name == name {
        assert forall|k: int| 0 <= k < r.len() implies lo <= r[k].date_day by {
            if k > 0 {
                assert(r[k] == acc[k]);
            }
        }
    } else if acc.first().date_day <= day {
        assert(forall|k: int|
            0 <= k < acc.drop_first().len() ==> lo <= #[trigger] acc.drop_first()[k].date_day);
        lemma_bump_lower(acc.drop_first(), day, name, lo);
        assert forall|k: int| 0 <= k < r.len() implies lo <= r[k].date_day by {
            if k > 0 {
                assert(r[k] == spec_bump(acc.drop_first(), day, name)[k - 1]);
            }
        }
    } else {
        assert forall|k: int| 0 <= k < r.len() implies lo <= r[k].date_day by {
            if k > 0 {
                assert(r[k] == acc[k - 1]);
            }
        }
    }
}

/// Crediting a mint preserves the day ordering of the aggregate.
proof fn lemma_bump_sorted(acc: Seq<MintRowModel>, day: u64, name: Seq<char>)
    requires
        sorted_by_day(acc),
    ensures
        sorted_by_day(spec_bump(acc, day, name)),
    decreases acc.len(),
{
    let r = spec_bump(acc, day, name);
    if acc.len() == 0 {
    } else if acc.first().date_day == day && acc.first().token_name == name {
        assert forall|i: int, j: int| 0 <= i < j < r.len() implies r[i].date_day
            <= r[j].date_day by {
            assert(r[j] == acc[j]);
            if i > 0 {
                assert(r[i] == acc[i]);
            } else {
                assert(r[0].date_day == acc[0].date_day);
            }
        }
    } else if acc.first().date_day <= day {
        let rest = acc.drop_first();
        assert(forall|i: int, j: int|
            0 <= i < j < rest.len() ==> #[trigger] rest[i].date_day <= #[trigger] rest[j].date_day);
        lemma_bump_sorted(rest, day, name);
        assert(forall|k: int| 0 <= k < rest.len() ==> acc.first().date_day <= #[trigger] rest[k].date_day);
        lemma_bump_lower(rest, day, name, acc.first().date_day);
        let b = spec_bump(rest, day, name);
        assert forall|i: int, j: int| 0 <= i < j < r.len() implies r[i].date_day
            <= r[j].date_day by {
            assert(r[j] == b[j - 1]);
            if i > 0 {
                assert(r[i] == b[i - 1]);
            } else {
                assert(r[0] == acc.first());
            }
        }
    } else {
        assert forall|i: int, j: int| 0 <= i < j < r.len() implies r[i].date_day
            <= r[j].date_day by {
            assert(r[j] == acc[j - 1]);
            if i > 0 {
                assert(r[i] == acc[i - 1]);
            }
        }
    }
}

/// No two buckets carry the same (day, token name) key.
pub open spec fn unique_keys(s: Seq<MintRowModel>) -> bool {
    forall|i: int, j: int|
        0 <= i < j < s.len() ==> !(s[i].date_day == s[j].date_day && s[i].token_name
            == s[j].token_name)
}

/// Every bucket of the credited aggregate carries either the credited key
/// or a key some bucket already carried.
proof fn lemma_bump_keys(acc: Seq<MintRowModel>, day: u64, name: Seq<char>)
    ensures
        forall|k: int|
            #![auto]
            0 <= k < spec_bump(acc, day, name).len() ==> (spec_bump(acc, day, name)[k].date_day
                == day && spec_bump(acc, day, name)[k].token_name == name) || (exists|j: int|
                #![auto]
                0 <= j < acc.len() && acc[j].date_day == spec_bump(acc, day, name)[k].date_day
                    && acc[j].token_name == spec_bump(acc, day, name)[k].token_name),
    decreases acc.len(),
{
    let r = spec_bump(acc, day, name);
    if acc.len() == 0 {
    } else if acc.first().date_day == day && acc.first().token_name == name {
        assert forall|k: int| #![auto] 0 <= k < r.len() implies (r[k].date_day == day
            && r[k].token_name == name) || (exists|j: int|
            #![auto]
            0 <= j < acc.len() && acc[j].date_day == r[k].date_day && acc[j].token_name
                == r[k].token_name) by {
            if k > 0 {
                assert(r[k] == acc[k]);
            }
        }
    } else if acc.first().date_day <= day {
        let rest = acc.drop_first();
        lemma_bump_keys(rest, day, name);
        let b = spec_bump(rest, day, name);
        assert forall|k: int| #![auto] 0 <= k < r.len() implies (r[k].date_day == day
            && r[k].token_name == name) || (exists|j: int|
            #![auto]
            0 <= j < acc.len() && acc[j].date_day == r[k].date_day && acc[j].token_name
                == r[k].token_name) by {
            if k == 0 {
                assert(r[0] == acc[0]);
            } else {
                assert(r[k] == b[k - 1]);
                if !(b[k - 1].date_day == day && b[k - 1].token_name == name) {
                    let j = choose|j: int|
                        #![auto]
                        0 <= j < rest.len() && rest[j].date_day == b[k - 1].date_day
                            && rest[j].token_name == b[k - 1].token_name;
                    assert(acc[j + 1] == rest[j]);
                }
            }
        }
    } else {
        assert forall|k: int| #![auto] 0 <= k < r.len() implies (r[k].date_day == day
            && r[k].token_name == name) || (exists|j: int|
            #![auto]
            0 <= j < acc.len() && acc[j].date_day == r[k].date_day && acc[j].token_name
                == r[k].token_name) by {
            if k > 0 {
                assert(r[k] == acc[k - 1]);
            }
        }
    }
}

/// Crediting a mint to a day-ordered aggregate with distinct bucket keys
/// keeps the keys distinct.
proof fn lemma_bump_unique(acc: Seq<MintRowModel>, day: u64, name: Seq<char>)
    requires
        sorted_by_day(acc),
        unique_keys(acc),
    ensures
        unique_keys(spec_bump(acc, day, name)),
    decreases acc.len(),
{
    let r = spec_bump(acc, day, name);
    if acc.len() == 0 {
    } else if acc.first().date_day == day && acc.first().token_name == name {
        assert forall|i: int, j: int| 0 <= i < j < r.len() implies !(r[i].date_day == r[j].date_day
            && r[i].token_name == r[j].token_name) by {
            assert(r[j] == acc[j]);
            if i > 0 {
                assert(r[i] == acc[i]);
            } else {
                assert(r[0].date_day == acc[0].date_day && r[0].token_name == acc[0].token_name);
            }
        }
    } else if acc.first().date_day <= day {
        let rest = acc.drop_first();
        assert(forall|i: int, j: int|
            0 <= i < j < rest.len() ==> #[trigger] rest[i] == acc[i + 1] && #[trigger] rest[j]
                == acc[j + 1]);
        lemma_bump_unique(rest, day, name);
        lemma_bump_keys(rest, day, name);
        let b = spec_bump(rest, day, name);
        assert forall|i: int, j: int| 0 <= i < j < r.len() implies !(r[i].date_day == r[j].date_day
            && r[i].token_name == r[j].token_name) by {
            if i == 0 {
                assert(r[0] == acc[0]);
                assert(r[j] == b[j - 1]);
                if r[0].date_day == b[j - 1].date_day && r[0].token_name == b[j - 1].token_name {
                    if b[j - 1].date_day == day && b[j - 1].token_name == name {
                        assert(acc[0].date_day == day && acc[0].token_name == name);
                        assert(false);
                    } else {
                        let w = choose|w: int|
                            #![auto]
                            0 <= w < rest.len() && rest[w].date_day == b[j - 1].date_day
                                && rest[w].token_name == b[j - 1].token_name;
                        assert(acc[w + 1] == rest[w]);
                        assert(false);
                    }
                }
            } else {
                assert(r[i] == b[i - 1]);
                assert(r[j] == b[j - 1]);
            }
        }
    } else {
        assert forall|i: int, j: int| 0 <= i < j < r.len() implies !(r[i].date_day == r[j].date_day
            && r[i].token_name == r[j].token_name) by {
            assert(r[j] == acc[j - 1]);
            if i > 0 {
                assert(r[i] == acc[i - 1]);
            } else {
                assert(acc[j - 1].date_day >= acc[0].date_day);
                assert(r[0].date_day == day);
            }
        }
    }
}

/// The aggregate of any row sequence keeps one bucket per key.
proof fn lemma_agg_unique(s: Seq<TransferRowModel>)
    ensures
        unique_keys(spec_mint_agg(s)),
    decreases s.len(),
{
    if s.len() > 0 {
        lemma_agg_unique(s.drop_last());
        if spec_is_mint(s.last()) {
            lemma_agg_sorted(s.drop_last());
            lemma_bump_unique(
                spec_mint_agg(s.drop_last()),
                day_of(s.last().timestamp_ms),
                s.last().token_name,
            );
        }
    }
}

/// The aggregate of any row sequence is ordered by day.
proof fn lemma_agg_sorted(s: Seq<TransferRowModel>)
    ensures
        sorted_by_day(spec_mint_agg(s)),
    decreases s.len(),
{
    if s.len() > 0 {
        lemma_agg_sorted(s.drop_last());
        if spec_is_mint(s.last()) {
            lemma_bump_sorted(
                spec_mint_agg(s.drop_last()),
                day_of(s.last().timestamp_ms),
                s.last().token_name,
            );
        }
    }
}

/// Credit one mint on `day` for `name` to the bucket list in place.
fn bump_rows(out: &mut Vec<MintRow>, day: u64, name: &String)
    requires
        spec_sum(mints_model(old(out)@)) < u64::MAX,
    ensures
        mints_model(final(out)@) == spec_bump(mints_model(old(out)@), day, name@),
{
    let ghost full = mints_model(old(out)@);
    let mut i: usize = 0;
    proof {
        assert(full.take(0) =~= Seq::<MintRowModel>::empty());
        assert(full.skip(0) =~= full);
        assert(full.take(0) + spec_bump(full.skip(0), day, name@) =~= spec_bump(full, day, name@));
    }
    while i < out.len()
        invariant
            0 <= i <= out@.len(),
            full == mints_model(old(out)@),
            spec_sum(full) < u64::MAX,
            out@ == old(out)@,
            spec_bump(full, day, name@) == full.take(i as int) + spec_bump(
                full.skip(i as int),
                day,
                name@,
            ),
        decreases out@.len() - i,
    {
        proof {
            assert(mints_model(old(out)@).len() == old(out)@.len());
            assert(full.len() == out@.len());
            assert(full[i as int] == out@[i as int]@);
            assert(full.skip(i as int).first() == full[i as int]);
            assert(full.skip(i as int).drop_first() =~= full.skip(i + 1));
        }
        let e_day = out[i].date_day;
        if e_day == day && out[i].token_name == *name {
            let count = out[i].mint_count;
            proof {
                lemma_count_le_sum(full, i as int);
            }
            let updated = MintRow {
                date_day: day,
                token_name: name.clone(),
                mint_count: count + 1,
            };
            out.set(i, updated);
            proof {
                let bumped = MintRowModel {
                    date_day: day,
                    token_name: name@,
                    mint_count: full[i as int].mint_count + 1,
                };
                assert(spec_bump(full.skip(i as int), day, name@) =~= seq![bumped] + full.skip(
                    i + 1,
                ));
                assert(mints_model(out@) =~= full.take(i as int) + (seq![bumped] + full.skip(
                    i + 1,
                )));
            }
            return ;
        } else if e_day <= day {
            proof {
                let b = spec_bump(full.skip(i + 1), day, name@);
                assert(spec_bump(full.skip(i as int), day, name@) =~= seq![full[i as int]] + b);
                assert(full.take(i as int) + (seq![full[i as int]] + b) =~= full.take(i + 1) + b);
            }
            i = i + 1;
        } else {
            let fresh = MintRow { date_day: day, token_name: name.clone(), mint_count: 1 };
            out.insert(i, fresh);
            proof {
                let new_model = MintRowModel { date_day: day, token_name: name@, mint_count: 1 };
                assert(spec_bump(full.skip(i as int), day, name@) =~= seq![new_model] + full.skip(
                    i as int,
                ));
                assert(mints_model(out@) =~= full.take(i as int) + (seq![new_model] + full.skip(
                    i as int,
                )));
            }
            return ;
        }
    }
    let fresh = MintRow { date_day: day, token_name: name.clone(), mint_count: 1 };
    out.insert(i, fresh);
    proof {
        let new_model = MintRowModel { date_day: day, token_name: name@, mint_count: 1 };
        assert(full.skip(i as int) =~= Seq::<MintRowModel>::empty());
        assert(spec_bump(full.skip(i as int), day, name@) =~= seq![new_model]);
        assert(mints_model(out@) =~= full.take(i as int) + seq![new_model] + full.skip(i as int));
        assert(full.take(i as int) + seq![new_model] + full.skip(i as int) =~= full.take(i as int)
            + (seq![new_model] + full.skip(i as int)));
    }
}

/// Aggregate a deduplicated table into daily (day, token name) mint counts,
/// ordered by day: exactly the aggregate the mint-credit rule prescribes,
/// its bucket counts summing to the table's number of mint rows.
pub fn aggregate_table(t: &TransferTable) -> (out: Vec<MintRow>)
    ensures
        mints_model(out@) == spec_mint_agg(rows_model(t.rows@)),
        spec_sum(mints_model(out@)) == count_mints(rows_model(t.rows@)),
        forall|day: u64, name: Seq<char>|
            #![auto]
            spec_key_count(mints_model(out@), day, name) == count_mints_key(
                rows_model(t.rows@),
                day,
                name,
            ),
        sorted_by_day(mints_model(out@)),
        unique_keys(mints_model(out@)),
{
    let ghost all = rows_model(t.rows@);
    let mut out: Vec<MintRow> = Vec::new();
    let mut i: usize = 0;
    proof {
        assert(mints_model(out@) =~= spec_mint_agg(all.take(0)));
        assert(spec_mint_agg(all.take(0)) =~= Seq::<MintRowModel>::empty());
    }
    while i < t.rows.len()
        invariant
            0 <= i <= t.rows@.len(),
            all == rows_model(t.rows@),
            mints_model(out@) == spec_mint_agg(all.take(i as int)),
            spec_sum(mints_model(out@)) == count_mints(all.take(i as int)),
            count_mints(all.take(i as int)) <= i,
        decreases t.rows@.len() - i,
    {
        let ghost taken = all.take(i + 1);
        proof {
            assert(taken.drop_last() =~= all.take(i as int));
            assert(taken.last() == all[i as int]);
            assert(all[i as int] == t.rows@[i as int]@);
        }
        let row = &t.rows[i];
        if is_mint(row) {
            bump_rows(&mut out, row.timestamp_ms / MS_PER_DAY, &row.token_name);
            proof {
                lemma_bump_sum(spec_mint_agg(all.take(i as int)), day_of(all[i as int].timestamp_ms), all[i as int].token_name);
            }
        }
        i = i + 1;
    }
    proof {
        assert(all.take(t.rows@.len() as int) =~= all);
        lemma_agg_sorted(all);
        lemma_agg_unique(all);
        assert forall|day: u64, name: Seq<char>|
            #![auto]
            spec_key_count(mints_model(out@), day, name) == count_mints_key(all, day, name) by {
            lemma_mint_bucket_totals(all, day, name);
        }
    }
    out
}

/// The whole aggregation contract: deduplicate the rows, then reduce the
/// mint transfers to daily per-token counts ordered by day. An input with
/// no mint rows yields an empty sequence — that is a valid outcome, not an
/// error.
pub fn aggregate_mints(rows: &Vec<TransferRow>) -> (out: Vec<MintRow>)
    ensures
        mints_model(out@) == spec_mint_agg(spec_dedup(rows_model(rows@))),
        spec_sum(mints_model(out@)) == count_mints(spec_dedup(rows_model(rows@))),
        forall|day: u64, name: Seq<char>|
            #![auto]
            spec_key_count(mints_model(out@), day, name) == count_mints_key(
                spec_dedup(rows_model(rows@)),
                day,
                name,
            ),
        sorted_by_day(mints_model(out@)),
        unique_keys(mints_model(out@)),
{
    let table = TransferTable::build(rows);
    aggregate_table(&table)
}

} // verus!
