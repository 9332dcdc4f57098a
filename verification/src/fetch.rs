//! Cursor pagination over the explorer's transfer feed.
//!
//! The explorer answers "transfers from `start_block`, ascending" one page at
//! a time. The cursor advances to the block number of each page's last
//! record; a page that yields no forward progress, or an empty page, ends the
//! loop. The last page is intentionally collected twice at the boundary —
//! the aggregation step deduplicates. The caller performs the HTTP round
//! trips and feeds each parsed page to [`fetch_on_page`]; a whole stubbed-out
//! feed can be run through [`fetch_all_transfers`].

use vstd::prelude::*;

use crate::errors::FetchError;
use crate::numstr::{dec_val, is_dec_string, parse_u64};
use crate::record::{RawRecordModel, RawTransferRecord};

verus! {

/// The records of a sequence of exec records, as models.
pub open spec fn recs_model(s: Seq<RawTransferRecord>) -> Seq<RawRecordModel> {
    s.map_values(|r: RawTransferRecord| r@)
}

/// The pages of an exec page list, as models.
pub open spec fn pages_model(s: Seq<Vec<RawTransferRecord>>) -> Seq<Seq<RawRecordModel>> {
    s.map_values(|p: Vec<RawTransferRecord>| recs_model(p@))
}

/// What one page does to the cursor loop.
pub ghost enum FetchStep {
    /// The loop ends; the page's records (possibly none) are appended.
    Stop(Seq<RawRecordModel>),
    /// The loop continues from a new start block; the records are appended.
    Next(u64, Seq<RawRecordModel>),
    /// The page's last record carries no usable block number.
    Fail,
}

/// The cursor rule of one page: an empty page stops the loop; otherwise the
/// page is appended and the block number of its last record either repeats
/// the current start block (no forward progress: stop) or becomes the next
/// start block.
pub open spec fn spec_fetch_step(start: u64, page: Seq<RawRecordModel>) -> FetchStep {
    if page.len() == 0 {
        FetchStep::Stop(seq![])
    } else {
        let b = page.last().block_number;
        if is_dec_string(b) && dec_val(b) <= u64::MAX {
            if dec_val(b) == start {
                FetchStep::Stop(page)
            } else {
                FetchStep::Next(dec_val(b) as u64, page)
            }
        } else {
            FetchStep::Fail
        }
    }
}

/// Everything pagination can come to.
pub ghost enum FetchOutcome {
    /// The loop stopped with this record sequence.
    Records(Seq<RawRecordModel>),
    /// A page's last block number did not parse.
    BadBlockNumber,
    /// The page source ended while the cursor still asked for more.
    OutOfPages,
    /// The loop stopped having collected nothing.
    Empty,
}

/// Run the cursor loop from page `i` with the given start block and the
/// records accumulated so far, answering request `k` with `pages[k]`.
pub open spec fn spec_fetch_from(
    pages: Seq<Seq<RawRecordModel>>,
    i: int,
    start: u64,
    acc: Seq<RawRecordModel>,
) -> FetchOutcome
    decreases pages.len() - i,
    when 0 <= i <= pages.len()
{
    if i == pages.len() {
        FetchOutcome::OutOfPages
    } else {
        match spec_fetch_step(start, pages[i]) {
            FetchStep::Fail => FetchOutcome::BadBlockNumber,
            FetchStep::Stop(recs) => {
                if acc.len() + recs.len() == 0 {
                    FetchOutcome::Empty
                } else {
                    FetchOutcome::Records(acc + recs)
                }
            },
            FetchStep::Next(next_start, recs) => {
                spec_fetch_from(pages, i + 1, next_start, acc + recs)
            },
        }
    }
}

/// The whole cursor loop, from block 0 with nothing collected.
pub open spec fn spec_fetch(pages: Seq<Seq<RawRecordModel>>) -> FetchOutcome {
    spec_fetch_from(pages, 0, 0u64, seq![])
}

/// The block number of a non-empty page's last record, as a number.
pub open spec fn page_last_block(page: Seq<RawRecordModel>) -> nat {
    dec_val(page.last().block_number)
}

/// The start block of the `k`-th request against a feed in which every page
/// before the last advances the cursor: request 0 starts at block 0, and
/// request `k` starts at the last block of page `k - 1`.
pub open spec fn chain_start(pages: Seq<Seq<RawRecordModel>>, k: int) -> nat {
    if k <= 0 {
        0
    } else {
        page_last_block(pages[k - 1])
    }
}

/// All records of pages `i..`, concatenated in the order received.
pub open spec fn flatten_from(pages: Seq<Seq<RawRecordModel>>, i: int) -> Seq<RawRecordModel>
    decreases pages.len() - i,
    when 0 <= i <= pages.len()
{
    if i >= pages.len() {
        Seq::empty()
    } else {
        pages[i] + flatten_from(pages, i + 1)
    }
}

/// A well-behaved paginated feed: every page is non-empty and ends in a
/// parsable block number, every page but the last moves the cursor forward,
/// and the last page answers its request with its own start block (the
/// boundary overlap that signals the end).
pub open spec fn well_chained(pages: Seq<Seq<RawRecordModel>>) -> bool {
    &&& pages.len() >= 1
    &&& forall|k: int| 0 <= k < pages.len() ==> (#[trigger] pages[k]).len() > 0
    &&& forall|k: int|
        0 <= k < pages.len() ==> is_dec_string((#[trigger] pages[k]).last().block_number)
            && dec_val(pages[k].last().block_number) <= u64::MAX
    &&& forall|k: int|
        0 <= k < pages.len() - 1 ==> page_last_block(#[trigger] pages[k]) != chain_start(pages, k)
    &&& page_last_block(pages.last()) == chain_start(pages, pages.len() - 1)
}

proof fn lemma_fetch_from_chained(pages: Seq<Seq<RawRecordModel>>, i: int, acc: Seq<RawRecordModel>)
    requires
        well_chained(pages),
        0 <= i < pages.len(),
    ensures
        spec_fetch_from(pages, i, chain_start(pages, i) as u64, acc) == FetchOutcome::Records(
            acc + flatten_from(pages, i),
        ),
    decreases pages.len() - i,
{
    let page = pages[i];
    let start = chain_start(pages, i) as u64;
    assert(page.len() > 0);
    assert(is_dec_string(page.last().block_number) && dec_val(page.last().block_number)
        <= u64::MAX);
    if i == pages.len() - 1 {
        assert(page_last_block(page) == chain_start(pages, i));
        assert(spec_fetch_step(start, page) == FetchStep::Stop(page));
        assert(flatten_from(pages, i + 1) =~= Seq::<RawRecordModel>::empty());
        assert(acc + flatten_from(pages, i) =~= acc + page);
        assert(acc.len() + page.len() > 0);
    } else {
        assert(page_last_block(page) != chain_start(pages, i));
        assert(spec_fetch_step(start, page) == FetchStep::Next(
            dec_val(page.last().block_number) as u64,
            page,
        ));
        assert(chain_start(pages, i + 1) == page_last_block(page));
        lemma_fetch_from_chained(pages, i + 1, acc + page);
        assert(acc + flatten_from(pages, i) =~= (acc + page) + flatten_from(pages, i + 1));
    }
}

/// Pagination termination and completeness: against a well-chained feed the
/// cursor loop needs no page beyond the last one offered — it never runs out
/// of pages — and it collects exactly the concatenation of every page's
/// records, in order and with no gaps.
pub proof fn lemma_pagination_collects_all_pages(pages: Seq<Seq<RawRecordModel>>)
    requires
        well_chained(pages),
    ensures
        spec_fetch(pages) == FetchOutcome::Records(flatten_from(pages, 0)),
{
    lemma_fetch_from_chained(pages, 0, Seq::empty());
    assert(Seq::<RawRecordModel>::empty() + flatten_from(pages, 0) =~= flatten_from(pages, 0));
}

/// The running state of one pagination pass.
pub struct FetchState {
    /// The cursor: the start block of the next request.
    pub start_block: u64,
    /// Every record collected so far, in the order received.
    pub records: Vec<RawTransferRecord>,
    /// Whether the loop has come to rest.
    pub done: bool,
}

/// A fresh pagination pass: cursor at block 0, nothing collected.
pub fn fetch_begin() -> (st: FetchState)
    ensures
        st.start_block == 0,
        st.records@.len() == 0,
        !st.done,
{
    FetchState { start_block: 0, records: Vec::new(), done: false }
}

/// Feed the loop one page. Returns `Ok(true)` when another page must be
/// requested from the new `start_block`, `Ok(false)` when the loop has come
/// to rest, and an error when the page's last block number does not parse.
pub fn fetch_on_page(st: &mut FetchState, page: &Vec<RawTransferRecord>) -> (r: Result<
    bool,
    FetchError,
>)
    requires
        !old(st).done,
    ensures
        spec_fetch_step(old(st).start_block, recs_model(page@)) is Fail ==> {
            &&& r matches Err(FetchError::InvalidBlockNumber)
            &&& *final(st) == *old(st)
        },
        spec_fetch_step(old(st).start_block, recs_model(page@)) matches FetchStep::Stop(recs)
            ==> {
            &&& r matches Ok(cont) && !cont
            &&& final(st).done
            &&& final(st).start_block == old(st).start_block
            &&& recs_model(final(st).records@) == recs_model(old(st).records@) + recs
        },
        spec_fetch_step(old(st).start_block, recs_model(page@)) matches FetchStep::Next(
            next_start,
            recs,
        ) ==> {
            &&& r matches Ok(cont) && cont
            &&& !final(st).done
            &&& final(st).start_block == next_start
            &&& recs_model(final(st).records@) == recs_model(old(st).records@) + recs
        },
{
    if page.len() == 0 {
        st.done = true;
        proof {
            assert(recs_model(st.records@) =~= recs_model(old(st).records@)
                + Seq::<RawRecordModel>::empty());
        }
        return Ok(false);
    }
    let last = &page[page.len() - 1];
    proof {
        assert(recs_model(page@).last() == page@.last()@);
    }
    let cur = match parse_u64(last.block_number.as_str()) {
        Some(v) => v,
        None => {
            return Err(FetchError::InvalidBlockNumber);
        },
    };
    let mut j: usize = 0;
    while j < page.len()
        invariant
            0 <= j <= page@.len(),
            st.start_block == old(st).start_block,
            st.done == old(st).done,
            recs_model(st.records@) =~= recs_model(old(st).records@) + recs_model(
                page@.take(j as int),
            ),
        decreases page@.len() - j,
    {
        let ghost prev = st.records@;
        let rec = page[j].clone();
        st.records.push(rec);
        proof {
            assert(recs_model(prev).len() == prev.len());
            assert(recs_model(old(st).records@).len() == old(st).records@.len());
            assert(recs_model(page@.take(j as int)).len() == j);
            assert(prev.len() == old(st).records@.len() + j);
            assert(st.records@ == prev.push(st.records@.last()));
            assert(st.records@.last()@ == page@[j as int]@);
            assert(recs_model(st.records@) =~= recs_model(prev).push(page@[j as int]@));
            assert(recs_model(page@.take(j + 1)) =~= recs_model(page@.take(j as int)).push(
                page@[j as int]@,
            ));
            assert(recs_model(old(st).records@) + recs_model(page@.take(j as int)).push(
                page@[j as int]@,
            ) =~= (recs_model(old(st).records@) + recs_model(page@.take(j as int))).push(
                page@[j as int]@,
            ));
            assert(recs_model(st.records@) =~= recs_model(old(st).records@) + recs_model(
                page@.take(j + 1),
            ));
        }
        j = j + 1;
    }
    proof {
        assert(page@.take(page@.len() as int) =~= page@);
    }
    if cur == st.start_block {
        st.done = true;
        Ok(false)
    } else {
        st.start_block = cur;
        Ok(true)
    }
}

/// Close a pagination pass: the loop must have come to rest, and collecting
/// nothing at all is an error — the caller must never build an empty table.
pub fn fetch_finish(st: FetchState) -> (r: Result<Vec<RawTransferRecord>, FetchError>)
    ensures
        !st.done ==> r matches Err(FetchError::PagesExhausted),
        st.done && st.records@.len() == 0 ==> r matches Err(FetchError::EmptyResult),
        st.done && st.records@.len() > 0 ==> (r matches Ok(v) && v@ == st.records@),
{
    if !st.done {
        Err(FetchError::PagesExhausted)
    } else if st.records.len() == 0 {
        Err(FetchError::EmptyResult)
    } else {
        Ok(st.records)
    }
}

/// Run the whole cursor loop against a fixed list of pages, `pages[k]`
/// standing for the answer to the `k`-th request. The result is exactly what
/// the cursor rule prescribes for that feed.
pub fn fetch_all_transfers(pages: &Vec<Vec<RawTransferRecord>>) -> (r: Result<
    Vec<RawTransferRecord>,
    FetchError,
>)
    ensures
        spec_fetch(pages_model(pages@)) matches FetchOutcome::Records(recs) ==> (r matches Ok(v)
            && recs_model(v@) == recs),
        spec_fetch(pages_model(pages@)) is BadBlockNumber ==> r matches Err(
            FetchError::InvalidBlockNumber,
        ),
        spec_fetch(pages_model(pages@)) is OutOfPages ==> r matches Err(FetchError::PagesExhausted),
        spec_fetch(pages_model(pages@)) is Empty ==> r matches Err(FetchError::EmptyResult),
{
    let ghost pm = pages_model(pages@);
    let mut st = fetch_begin();
    let mut i: usize = 0;
    proof {
        assert(recs_model(st.records@) =~= Seq::<RawRecordModel>::empty());
    }
    while !st.done && i < pages.len()
        invariant
            0 <= i <= pages@.len(),
            pm == pages_model(pages@),
            !st.done ==> spec_fetch_from(pm, i as int, st.start_block, recs_model(st.records@))
                == spec_fetch(pm),
            st.done ==> (spec_fetch(pm) matches FetchOutcome::Records(recs) && recs == recs_model(
                st.records@,
            ) && recs.len() > 0) || (spec_fetch(pm) is Empty && recs_model(st.records@).len() == 0),
        decreases pages@.len() - i,
    {
        proof {
            assert(pm[i as int] == recs_model(pages@[i as int]@));
        }
        let page = &pages[i];
        match fetch_on_page(&mut st, page) {
            Ok(_cont) => {},
            Err(e) => {
                return Err(e);
            },
        }
        i = i + 1;
    }
    if !st.done {
        return Err(FetchError::PagesExhausted);
    }
    fetch_finish(st)
}

} // verus!
