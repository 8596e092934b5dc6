//! Listing invoices: the `filter` argument, which records a filter keeps, and
//! a paged scan over the tenant's invoice map that collects them in key order.

use vstd::prelude::*;

use crate::invoices::{self, is_overdue, Invoice, Status};
use crate::text::same_text;

verus! {

/// Number of records asked for per scan call.
pub const SCAN_BATCH: u32 = 500;

/// Exclusive end key of the scan: above any ASCII invoice id.
pub const SCAN_END: u8 = 0xFF;

/// Which invoices a listing returns.
#[derive(Clone, Copy, PartialEq, Eq, Structural, Debug)]
pub enum ListFilter {
    All,
    Open,
    Overdue,
}

/// The filter that the text names; an absent filter means all.
pub open spec fn filter_named(filter: Option<Seq<char>>) -> Option<ListFilter> {
    match filter {
        None => Some(ListFilter::All),
        Some(f) => if f == "all"@ {
            Some(ListFilter::All)
        } else if f == "open"@ {
            Some(ListFilter::Open)
        } else if f == "overdue"@ {
            Some(ListFilter::Overdue)
        } else {
            None
        },
    }
}

pub open spec fn msg_bad_filter(f: Seq<char>) -> Seq<char> {
    "list-invoices: bad input: filter must be all|open|overdue, got \""@ + f + "\""@
}

pub open spec fn opt_view(filter: Option<String>) -> Option<Seq<char>> {
    match filter {
        None => None,
        Some(f) => Some(f@),
    }
}

/// Reads the `filter` argument of a listing.
pub fn parse_list_filter(filter: Option<String>) -> (r: Result<ListFilter, String>)
    ensures
        match filter_named(opt_view(filter)) {
            Some(f) => r == Ok::<ListFilter, String>(f),
            None => r matches Err(e) && e@ == msg_bad_filter(filter->Some_0@),
        },
{
    match filter {
        None => Ok(ListFilter::All),
        Some(f) => {
            if same_text(f.as_str(), "all") {
                Ok(ListFilter::All)
            } else if same_text(f.as_str(), "open") {
                Ok(ListFilter::Open)
            } else if same_text(f.as_str(), "overdue") {
                Ok(ListFilter::Overdue)
            } else {
                let mut msg = "list-invoices: bad input: filter must be all|open|overdue, got \"".to_owned();
                msg.append(f.as_str());
                msg.append("\"");
                Err(msg)
            }
        },
    }
}

/// Whether `filter` keeps invoice `inv` at time `now`.
pub open spec fn is_kept(filter: ListFilter, inv: Invoice, now: u64) -> bool {
    match filter {
        ListFilter::All => true,
        ListFilter::Open => inv.status == Status::Open,
        ListFilter::Overdue => invoices::invoice_is_overdue(inv, now),
    }
}

pub fn keeps(filter: ListFilter, inv: &Invoice, now: u64) -> (r: bool)
    ensures
        r == is_kept(filter, *inv, now),
        filter == ListFilter::Open ==> (r <==> inv.status == Status::Open),
        filter == ListFilter::All ==> r,
{
    match filter {
        ListFilter::Open => inv.status == Status::Open,
        ListFilter::Overdue => is_overdue(inv, now),
        ListFilter::All => true,
    }
}

/// The invoices of `batch` that `filter` keeps, in batch order.
pub open spec fn kept_invoices(filter: ListFilter, now: u64, batch: Seq<(Vec<u8>, Invoice)>) -> Seq<Invoice>
    decreases batch.len(),
{
    if batch.len() == 0 {
        Seq::empty()
    } else {
        let rest = kept_invoices(filter, now, batch.drop_last());
        if is_kept(filter, batch.last().1, now) {
            rest.push(batch.last().1)
        } else {
            rest
        }
    }
}

/// A listing in progress: the invoices kept so far and the key the next
/// scan call starts at.
pub struct InvoiceScan {
    pub filter: ListFilter,
    pub now: u64,
    pub invoices: Vec<Invoice>,
    pub start: Vec<u8>,
    pub finished: bool,
}

impl InvoiceScan {
    pub fn new(filter: ListFilter, now: u64) -> (scan: InvoiceScan)
        ensures
            scan.filter == filter,
            scan.now == now,
            scan.invoices@ == Seq::<Invoice>::empty(),
            scan.start@ == Seq::<u8>::empty(),
            !scan.finished,
    {
        InvoiceScan { filter, now, invoices: Vec::new(), start: Vec::new(), finished: false }
    }

    /// Takes in one scan batch of `(key, invoice)` pairs in key order. The
    /// scan has no cursor, so the next call resumes just past the last key;
    /// a batch shorter than the limit ends the listing.
    pub fn absorb(&mut self, batch: Vec<(Vec<u8>, Invoice)>)
        ensures
            final(self).filter == old(self).filter,
            final(self).now == old(self).now,
            final(self).invoices@ == old(self).invoices@ + kept_invoices(old(self).filter, old(self).now, batch@),
            final(self).start@ == (if batch@.len() == 0 {
                old(self).start@
            } else {
                batch@.last().0@.push(0u8)
            }),
            final(self).finished == ((batch@.len() as u32) < SCAN_BATCH),
    {
        let batch_len = batch.len();
        let ghost items = batch@;
        let ghost before = self.invoices@;
        let ghost start0 = self.start@;
        for item in it: batch.into_iter()
            invariant
                it.seq() == items,
                self.filter == old(self).filter,
                self.now == old(self).now,
                self.invoices@ == before + kept_invoices(self.filter, self.now, items.take(it.index() as int)),
                self.start@ == (if it.index() == 0 {
                    start0
                } else {
                    items[it.index() - 1].0@.push(0u8)
                }),
        {
            let (key, inv) = item;
            proof {
                assert(items.take(it.index() + 1).drop_last() =~= items.take(it.index() as int));
            }
            if keeps(self.filter, &inv, self.now) {
                self.invoices.push(inv);
            }
            self.start = key;
            self.start.push(0);
        }
        proof {
            assert(items.take(items.len() as int) =~= items);
        }
        self.finished = (batch_len as u32) < SCAN_BATCH;
    }
}


/// Every invoice that a listing keeps satisfies its filter.
pub proof fn law_kept_invoices_satisfy_filter(filter: ListFilter, now: u64, batch: Seq<(Vec<u8>, Invoice)>)
    ensures
        kept_invoices(filter, now, batch).len() <= batch.len(),
        forall|i: int|
            0 <= i < kept_invoices(filter, now, batch).len() ==> is_kept(
                filter,
                #[trigger] kept_invoices(filter, now, batch)[i],
                now,
            ),
    decreases batch.len(),
{
    if batch.len() > 0 {
        law_kept_invoices_satisfy_filter(filter, now, batch.drop_last());
    }
}

/// Overdue invoices are a part of the open ones: what the `overdue` filter
/// keeps, the `open` filter keeps too, and `all` keeps everything.
pub proof fn law_overdue_within_open(inv: Invoice, now: u64)
    ensures
        is_kept(ListFilter::Overdue, inv, now) ==> is_kept(ListFilter::Open, inv, now),
        is_kept(ListFilter::All, inv, now),
{
}


/// The `open` filter keeps an invoice exactly when its status is open: never
/// a paid or a void one. The `overdue` filter keeps only open invoices too.
pub proof fn law_open_filter_keeps_only_open(inv: Invoice, now: u64)
    ensures
        is_kept(ListFilter::Open, inv, now) <==> inv.status == Status::Open,
        inv.status == Status::Paid ==> !is_kept(ListFilter::Open, inv, now) && !is_kept(ListFilter::Overdue, inv, now),
        inv.status == Status::Void ==> !is_kept(ListFilter::Open, inv, now) && !is_kept(ListFilter::Overdue, inv, now),
{
}

/// A listing with the `open` filter returns exactly the open invoices of the
/// batch: each one it returns is open, and it returns as many as the batch
/// holds open invoices.
pub proof fn law_open_listing_is_the_open_invoices(now: u64, batch: Seq<(Vec<u8>, Invoice)>)
    ensures
        forall|i: int|
            0 <= i < kept_invoices(ListFilter::Open, now, batch).len() ==> (#[trigger] kept_invoices(
                ListFilter::Open,
                now,
                batch,
            )[i]).status == Status::Open,
        kept_invoices(ListFilter::Open, now, batch).len() == batch.filter(
            |p: (Vec<u8>, Invoice)| p.1.status == Status::Open,
        ).len(),
    decreases batch.len(),
{
    let pred = |p: (Vec<u8>, Invoice)| p.1.status == Status::Open;
    if batch.len() > 0 {
        law_open_listing_is_the_open_invoices(now, batch.drop_last());
        reveal_with_fuel(Seq::filter, 1);
        assert(batch.filter(pred).len() == batch.drop_last().filter(pred).len() + (if pred(batch.last()) {
            1int
        } else {
            0int
        }));
    } else {
        reveal_with_fuel(Seq::filter, 1);
    }
}


/// The `overdue` filter keeps exactly the open invoices with a real due date
/// whose day has fully passed at `now`.
pub proof fn law_overdue_filter(inv: Invoice, now: u64)
    ensures
        is_kept(ListFilter::Overdue, inv, now) <==> {
            &&& inv.status == Status::Open
            &&& crate::dates::is_valid_due_date(inv.due_date@)
            &&& now >= (crate::dates::due_date_day(inv.due_date@) + 1) * 86400
        },
{
    if inv.status == Status::Open && crate::dates::is_valid_due_date(inv.due_date@) {
        invoices::law_overdue_starts_after_due_day(inv, now);
    }
}

} // verus!
