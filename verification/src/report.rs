//! Report building over the daily mint aggregate: the fixed-supply progress
//! report, the lookback window for charting, and the chart-ready table of
//! (date string, count) pairs with its title.

use vstd::prelude::*;

use crate::aggregate::{mints_model, spec_sum};
use crate::errors::ConfigError;
use crate::numstr::{
    dec_digits_of, dec_digits_signed, i64_to_string, two_digits_of, u64_to_string,
    u64_to_two_digits,
};
use crate::record::MintRow;

verus! {

/// The fixed total supply of the migration project the progress report
/// tracks.
pub const MAX_SUPPLY: u64 = 6900;

/// The widest lookback window, in days, that window mode accepts.
pub const MAX_LOOKBACK_DAYS: i64 = 180;

/// The four figures of a progress report. The percentage is held in
/// hundredths of a percent, rounded to nearest.
#[derive(Clone, Copy, Debug, PartialEq, Eq)]
pub struct ProgressReport {
    /// Count of the most recent date bucket; zero when there is none.
    pub minted_today: u64,
    /// Sum of all bucket counts.
    pub total_minted: u64,
    /// What is left of the fixed supply; negative if more was minted.
    pub remaining: i64,
    /// 100 x total / supply, in hundredths of a percent.
    pub percent_bp: u64,
}

/// Total of all bucket counts of a mint-row list.
pub fn sum_counts(mints: &Vec<MintRow>) -> (t: u64)
    requires
        spec_sum(mints_model(mints@)) <= u64::MAX,
    ensures
        t == spec_sum(mints_model(mints@)),
{
    let ghost full = mints_model(mints@);
    let mut acc: u64 = 0;
    let mut i: usize = 0;
    proof {
        assert(full.skip(0) =~= full);
    }
    while i < mints.len()
        invariant
            0 <= i <= mints@.len(),
            full == mints_model(mints@),
            spec_sum(full) <= u64::MAX,
            acc + spec_sum(full.skip(i as int)) == spec_sum(full),
        decreases mints@.len() - i,
    {
        proof {
            assert(mints_model(mints@).len() == mints@.len());
            assert(full[i as int] == mints@[i as int]@);
            assert(full.skip(i as int).first() == full[i as int]);
            assert(full.skip(i as int).drop_first() =~= full.skip(i + 1));
        }
        acc = acc + mints[i].mint_count;
        i = i + 1;
    }
    proof {
        assert(full.skip(mints@.len() as int) =~= Seq::<crate::record::MintRowModel>::empty());
    }
    acc
}

/// Derive the progress figures for a fixed-supply project: mints today from
/// the most recent bucket (zero when the aggregate is empty — never by
/// indexing into an empty sequence), the total across all days, what
/// remains of the supply, and the completed percentage in hundredths,
/// rounded to the nearest hundredth.
pub fn progress_report(mints: &Vec<MintRow>, max_supply: u64) -> (r: ProgressReport)
    requires
        0 < max_supply <= i64::MAX as u64,
        spec_sum(mints_model(mints@)) * 10000 + max_supply / 2 <= u64::MAX,
    ensures
        r.total_minted == spec_sum(mints_model(mints@)),
        r.minted_today as nat == (if mints@.len() == 0 {
            0nat
        } else {
            mints_model(mints@).last().mint_count
        }),
        r.remaining == max_supply - r.total_minted,
        r.percent_bp == (r.total_minted * 10000 + max_supply / 2) / (max_supply as int),
{
    let total = sum_counts(mints);
    let minted_today: u64 = if mints.len() == 0 {
        0
    } else {
        proof {
            assert(mints_model(mints@).len() == mints@.len());
            assert(mints_model(mints@).last() == mints@[mints@.len() - 1]@);
        }
        mints[mints.len() - 1].mint_count
    };
    proof {
        assert(total <= u64::MAX / 10000) by (nonlinear_arith)
            requires
                total * 10000 <= u64::MAX,
        ;
    }
    let remaining: i64 = max_supply as i64 - total as i64;
    let percent_bp: u64 = (total * 10000 + max_supply / 2) / max_supply;
    ProgressReport { minted_today, total_minted: total, remaining, percent_bp }
}

/// The fixed-format multi-line progress status, carrying all four figures.
pub open spec fn spec_progress_text(r: ProgressReport, max_supply: u64) -> Seq<char> {
    "- Bears Deluxe Migration -\nProgress: "@ + dec_digits_of((r.percent_bp / 100) as nat) + "."@
        + two_digits_of((r.percent_bp % 100) as nat) + "%\nMigrated Today: "@ + dec_digits_of(
        r.minted_today as nat,
    ) + "\nSupply: "@ + dec_digits_of(r.total_minted as nat) + "/"@ + dec_digits_of(
        max_supply as nat,
    ) + "\n\nRemaining: "@ + dec_digits_signed(r.remaining as int)
}

/// Render the progress status text.
pub fn render_progress(r: &ProgressReport, max_supply: u64) -> (out: String)
    requires
        r.remaining > i64::MIN,
    ensures
        out@ == spec_progress_text(*r, max_supply),
{
    let mut s = String::from_str("- Bears Deluxe Migration -\nProgress: ");
    s.append(u64_to_string(r.percent_bp / 100).as_str());
    s.append(".");
    s.append(u64_to_two_digits(r.percent_bp % 100).as_str());
    s.append("%\nMigrated Today: ");
    s.append(u64_to_string(r.minted_today).as_str());
    s.append("\nSupply: ");
    s.append(u64_to_string(r.total_minted).as_str());
    s.append("/");
    s.append(u64_to_string(max_supply).as_str());
    s.append("\n\nRemaining: ");
    s.append(i64_to_string(r.remaining).as_str());
    s
}

/// The window that a lookback keeps: the whole history for zero, otherwise
/// the trailing `lookback` buckets (all of them when fewer exist).
pub open spec fn spec_lookback(s: Seq<crate::record::MintRowModel>, lookback: i64) -> Seq<
    crate::record::MintRowModel,
>
    recommends
        0 <= lookback <= MAX_LOOKBACK_DAYS,
{
    if lookback == 0 || lookback >= s.len() {
        s
    } else {
        s.skip(s.len() - lookback)
    }
}

/// Keep the lookback window of the aggregate: zero means the entire
/// history; 1 to 180 keeps that many trailing buckets; anything else is a
/// configuration error, never silently clamped.
pub fn apply_lookback(mints: Vec<MintRow>, lookback_days: i64) -> (r: Result<
    Vec<MintRow>,
    ConfigError,
>)
    ensures
        r is Ok <==> 0 <= lookback_days <= MAX_LOOKBACK_DAYS,
        r matches Ok(v) ==> mints_model(v@) == spec_lookback(mints_model(mints@), lookback_days),
        r matches Err(e) ==> (e matches ConfigError::LookbackOutOfRange(d) && d == lookback_days),
{
    if lookback_days < 0 || lookback_days > MAX_LOOKBACK_DAYS {
        return Err(ConfigError::LookbackOutOfRange(lookback_days));
    }
    if lookback_days == 0 {
        return Ok(mints);
    }
    let n = lookback_days as usize;
    if n >= mints.len() {
        proof {
            assert(mints_model(mints@).len() == mints@.len());
        }
        return Ok(mints);
    }
    let ghost full = mints_model(mints@);
    let start = mints.len() - n;
    let mut out: Vec<MintRow> = Vec::new();
    let mut k: usize = start;
    proof {
        assert(mints_model(out@) =~= full.subrange(start as int, start as int));
    }
    while k < mints.len()
        invariant
            start <= k <= mints@.len(),
            full == mints_model(mints@),
            mints_model(out@) == full.subrange(start as int, k as int),
        decreases mints@.len() - k,
    {
        let ghost prev = out@;
        let row = mints[k].clone();
        out.push(row);
        proof {
            assert(full.len() == mints@.len());
            assert(full[k as int] == mints@[k as int]@);
            assert(mints_model(out@) =~= mints_model(prev).push(full[k as int]));
            assert(full.subrange(start as int, k + 1) =~= full.subrange(start as int, k as int).push(
                full[k as int],
            ));
        }
        k = k + 1;
    }
    proof {
        assert(full.subrange(start as int, mints@.len() as int) =~= full.skip(start as int));
    }
    Ok(out)
}

/// The chart title: the project's name, and the window size when one is set.
pub open spec fn spec_chart_title(project: Seq<char>, lookback: i64) -> Seq<char> {
    if lookback == 0 {
        project + " Historical Mint Activity"@
    } else {
        project + " "@ + dec_digits_of(lookback as nat) + "D Mint Activity"@
    }
}

/// Build the chart title for a project and an accepted lookback window.
pub fn chart_title(project: &str, lookback_days: i64) -> (out: String)
    requires
        0 <= lookback_days <= MAX_LOOKBACK_DAYS,
    ensures
        out@ == spec_chart_title(project@, lookback_days),
{
    let mut s = String::from_str(project);
    if lookback_days == 0 {
        s.append(" Historical Mint Activity");
    } else {
        s.append(" ");
        s.append(u64_to_string(lookback_days as u64).as_str());
        s.append("D Mint Activity");
    }
    s
}

/// The project name the aggregate reports: the token name of its first
/// bucket, or nothing when the aggregate is empty.
pub fn first_token_name(mints: &Vec<MintRow>) -> (r: Option<String>)
    ensures
        r is Some <==> mints@.len() > 0,
        r matches Some(s) ==> s@ == mints_model(mints@).first().token_name,
{
    if mints.len() == 0 {
        None
    } else {
        proof {
            assert(mints_model(mints@).len() == mints@.len());
            assert(mints_model(mints@).first() == mints@[0]@);
        }
        Some(mints[0].token_name.clone())
    }
}

/// The "%Y-%m-%d" rendering of a count of whole days since the epoch
/// (negative for days before it).
pub uninterp spec fn date_str_of(day: int) -> Seq<char>;

/// Relies on chrono::NaiveDate::from_epoch_days and its "%Y-%m-%d"
/// formatting: for a day count within chrono's range the rendering exists
/// and depends on the day number alone.
#[verifier::external_body]
fn format_day(day: i64) -> (r: String)
    requires
        -90000000 <= day <= 90000000,
    ensures
        r@ == date_str_of(day as int),
{
    match chrono::NaiveDate::from_epoch_days(day as i32) {
        Some(d) => d.format("%Y-%m-%d").to_string(),
        None => String::new(),
    }
}

/// Seconds in one calendar day.
pub const SECS_PER_DAY: u64 = 86400;

/// The calendar day an instant of unix seconds falls on: floor division,
/// so every negative instant belongs to the day before the epoch it sits
/// in.
pub open spec fn spec_day_of_secs(secs: int) -> int {
    secs / (SECS_PER_DAY as int)
}

/// Render a string of unix seconds — minus-signed for instants before the
/// epoch — as its UTC calendar date.
///
/// Yields nothing when the string does not denote an integer that fits a
/// signed 64-bit count, or when the day falls beyond the calendar's range.
pub fn to_date(ts_seconds: &str) -> (r: Option<String>)
    ensures
        r is Some <==> crate::numstr::is_signed_dec_string(ts_seconds@) && i64::MIN
            <= crate::numstr::signed_dec_val(ts_seconds@) <= i64::MAX && -90000000
            <= spec_day_of_secs(crate::numstr::signed_dec_val(ts_seconds@)) <= 90000000,
        r matches Some(s) ==> s@ == date_str_of(
            spec_day_of_secs(crate::numstr::signed_dec_val(ts_seconds@)),
        ),
{
    match crate::numstr::parse_i64(ts_seconds) {
        Some(secs) => {
            let day: i64 = if secs >= 0 {
                ((secs as u64) / SECS_PER_DAY) as i64
            } else {
                let n: u64 = (-(secs + 1)) as u64;
                let q: u64 = n / SECS_PER_DAY;
                proof {
                    vstd::arithmetic::div_mod::lemma_fundamental_div_mod(n as int, 86400);
                    vstd::arithmetic::div_mod::lemma_mod_bound(n as int, 86400);
                    let rr: int = (n as int) % 86400;
                    assert(secs == (-(q as int) - 1) * 86400 + (86399 - rr)) by {
                        assert(n == 86400 * (q as int) + rr);
                        assert(secs == -(n as int) - 1);
                    }
                    vstd::arithmetic::div_mod::lemma_fundamental_div_mod_converse(
                        secs as int,
                        86400,
                        -(q as int) - 1,
                        86399 - rr,
                    );
                }
                -1 - (q as i64)
            };
            if -90000000 <= day && day <= 90000000 {
                Some(format_day(day))
            } else {
                None
            }
        },
        None => None,
    }
}

/// The chart-ready table: one (date string, count) pair per bucket, in
/// bucket order. Day numbers beyond the calendar's range are not drawable.
pub fn chart_points(mints: &Vec<MintRow>) -> (r: Vec<(String, u64)>)
    requires
        forall|k: int|
            0 <= k < mints@.len() ==> (#[trigger] mints_model(mints@)[k]).date_day <= 90000000,
    ensures
        r@.len() == mints@.len(),
        forall|k: int|
            0 <= k < r@.len() ==> (#[trigger] r@[k]).0@ == date_str_of(
                mints_model(mints@)[k].date_day as int,
            ) && r@[k].1 as nat == mints_model(mints@)[k].mint_count,
{
    let ghost full = mints_model(mints@);
    let mut out: Vec<(String, u64)> = Vec::new();
    let mut i: usize = 0;
    while i < mints.len()
        invariant
            0 <= i <= mints@.len(),
            full == mints_model(mints@),
            forall|k: int|
                0 <= k < mints@.len() ==> (#[trigger] full[k]).date_day <= 90000000,
            out@.len() == i,
            forall|k: int|
                0 <= k < i ==> (#[trigger] out@[k]).0@ == date_str_of(full[k].date_day as int)
                    && out@[k].1 as nat == full[k].mint_count,
        decreases mints@.len() - i,
    {
        proof {
            assert(full.len() == mints@.len());
            assert(full[i as int] == mints@[i as int]@);
        }
        let label = format_day(mints[i].date_day as i64);
        out.push((label, mints[i].mint_count));
        i = i + 1;
    }
    out
}

} // verus!
