use vstd::prelude::*;

use crate::dates::{in_window, resolve_date_range, resolved_range, valid_day, window_bounds};
use crate::ledger::{resolved, Ledger, LedgerState};
use crate::listing::{desc_order, lemma_desc_order_len, order_desc, page_bounds, page_range};
use crate::dates::{parse_day, parsed_day};
use crate::models::{
    copy_opt_string, Customer, LedgerError, Sale, SaleHeader, SaleItem, SalesItemsListResponse,
    SalesSearchParams, StatsRangeParams,
};
use crate::search::{contains_folded, contains_ignoring_case};

verus! {

/// A numeric column of a line that reports add up.
#[derive(Clone, Copy, Debug, PartialEq, Eq, Structural)]
pub enum Amount {
    Quantity,
    TotalCents,
    TotalResolved,
}

pub open spec fn amount(line: SaleItem, a: Amount) -> int {
    match a {
        Amount::Quantity => line.quantity as int,
        Amount::TotalCents => line.total_cents as int,
        Amount::TotalResolved => line.total_resolved as int,
    }
}

/// The exact sum of a column over lines.
pub open spec fn sum_amount(lines: Seq<SaleItem>, a: Amount) -> int
    decreases lines.len(),
{
    if lines.len() == 0 {
        0
    } else {
        sum_amount(lines.drop_last(), a) + amount(lines.last(), a)
    }
}

pub open spec fn fits_i64(x: int) -> bool {
    i64::MIN <= x <= i64::MAX
}

/// The sum of a column over lines, where it fits in 64 bits.
pub fn total_of(lines: &Vec<SaleItem>, a: Amount) -> (r: Option<i64>)
    ensures
        fits_i64(sum_amount(lines@, a)) ==> r == Some(sum_amount(lines@, a) as i64),
        !fits_i64(sum_amount(lines@, a)) ==> r is None,
{
    let mut acc: i128 = 0;
    let mut i: usize = 0;
    while i < lines.len()
        invariant
            i <= lines@.len(),
            acc == sum_amount(lines@.subrange(0, i as int), a),
            -0x8000_0000_0000_0000 * (i as int) <= acc <= 0x7fff_ffff_ffff_ffff * (i as int),
        decreases lines@.len() - i,
    {
        assert(lines@.subrange(0, i as int + 1).drop_last() =~= lines@.subrange(0, i as int));
        let v: i64 = match a {
            Amount::Quantity => lines[i].quantity,
            Amount::TotalCents => lines[i].total_cents,
            Amount::TotalResolved => lines[i].total_resolved,
        };
        let ghost k = i as int;
        assert(k <= 0xffff_ffff_ffff_ffff);
        assert(0x7fff_ffff_ffff_ffff * k <= 0x7fff_ffff_ffff_ffff * 0xffff_ffff_ffff_ffff)
            by (nonlinear_arith)
            requires
                0 <= k <= 0xffff_ffff_ffff_ffff,
        ;
        assert(-0x8000_0000_0000_0000 * k >= -0x8000_0000_0000_0000 * 0xffff_ffff_ffff_ffff)
            by (nonlinear_arith)
            requires
                0 <= k <= 0xffff_ffff_ffff_ffff,
        ;
        acc = acc + v as i128;
        i = i + 1;
    }
    assert(lines@.subrange(0, lines@.len() as int) =~= lines@);
    if -0x8000_0000_0000_0000i128 <= acc && acc <= 0x7fff_ffff_ffff_ffffi128 {
        Some(acc as i64)
    } else {
        None
    }
}

/// The lines whose day lies in a window given by two date texts.
pub open spec fn window_lines(items: Seq<SaleItem>, start: Seq<char>, end: Seq<char>) -> Seq<
    SaleItem,
>
    decreases items.len(),
{
    if items.len() == 0 {
        Seq::empty()
    } else {
        let rest = window_lines(items.drop_last(), start, end);
        if in_window(items.last().date_of_sale.day as int, start, end) {
            rest.push(items.last())
        } else {
            rest
        }
    }
}

/// The time keys of lines, in their order.
pub open spec fn line_keys(lines: Seq<SaleItem>) -> Seq<i64> {
    Seq::new(lines.len(), |i: int| lines[i].date_of_sale.key() as i64)
}

/// Lines from the latest down; lines of the same moment keep their order.
pub open spec fn lines_by_time(lines: Seq<SaleItem>) -> Seq<SaleItem> {
    desc_order(line_keys(lines), lines.len()).map_values(|i: usize| lines[i as int])
}

/// One page of rows.
pub open spec fn page_of<T>(rows: Seq<T>, page: int, limit: int) -> Seq<T> {
    rows.subrange(
        page_bounds(rows.len() as int, page, limit).0,
        page_bounds(rows.len() as int, page, limit).1,
    )
}

/// The page number asked for; the first page where none is given.
pub open spec fn page_or_first(page: Option<i64>) -> int {
    match page {
        Some(p) => p as int,
        None => 1,
    }
}

/// The page size asked for; twenty rows where none is given.
pub open spec fn limit_or_default(limit: Option<i64>) -> int {
    match limit {
        Some(l) => l as int,
        None => 20,
    }
}

/// The flat list of lines: one page of the lines in the window, latest
/// first, resolved, and the sum of `total_cents` over every line in the
/// window, whatever the page. A sum that does not fit is a store failure.
pub open spec fn flat_list(s: LedgerState, params: SalesSearchParams, today: int) -> Result<
    (Seq<SaleItem>, int),
    LedgerError,
> {
    let range = resolved_range(params.start_date, params.end_date, today);
    let matching = window_lines(s.items, range.0, range.1);
    let total = sum_amount(matching, Amount::TotalCents);
    if fits_i64(total) {
        Ok(
            (
                page_of(
                    lines_by_time(matching),
                    page_or_first(params.page),
                    limit_or_default(params.limit),
                ).map_values(|l: SaleItem| resolved(l, s.products)),
                total,
            ),
        )
    } else {
        Err(LedgerError::Storage)
    }
}

impl Ledger {
    /// The lines whose day lies in a window given by two date texts, in the
    /// order of the store.
    pub fn lines_in_window(&self, start: &String, end: &String) -> (r: Vec<SaleItem>)
        ensures
            r@ == window_lines(self.items@, start@, end@),
    {
        let bounds = window_bounds(start.as_str(), end.as_str());
        let ghost items = self.items@;
        let mut out: Vec<SaleItem> = Vec::new();
        let mut i: usize = 0;
        while i < self.items.len()
            invariant
                i <= items.len(),
                items == self.items@,
                out@ == window_lines(items.subrange(0, i as int), start@, end@),
                bounds matches Some(b) ==> parsed_day(start@) == Some(b.0 as int)
                    && parsed_day(end@) == Some(b.1 as int),
                bounds is None ==> parsed_day(start@) is None
                    || parsed_day(end@) is None,
            decreases items.len() - i,
        {
            assert(items.subrange(0, i as int + 1).drop_last() =~= items.subrange(0, i as int));
            let day = self.items[i].date_of_sale.day;
            let inside = match bounds {
                Some((a, b)) => a <= day && day <= b,
                None => false,
            };
            if inside {
                out.push(self.items[i].duplicate());
            }
            i = i + 1;
        }
        assert(items.subrange(0, items.len() as int) =~= items);
        out
    }

    /// The flat list of lines with the period total (see `flat_list`).
    pub fn list_sales(&self, params: &SalesSearchParams, today: i32) -> (r: Result<
        SalesItemsListResponse,
        LedgerError,
    >)
        requires
            valid_day(today as int),
        ensures
            match (r, flat_list(self@, *params, today as int)) {
                (Ok(resp), Ok(v)) => resp.sales@ == v.0 && resp.total_sales_period_cents == v.1,
                (Err(e), Err(f)) => e == f,
                _ => false,
            },
    {
        let range = resolve_date_range(
            copy_opt_string(&params.start_date),
            copy_opt_string(&params.end_date),
            today,
        );
        let matching = self.lines_in_window(&range.0, &range.1);
        let total = match total_of(&matching, Amount::TotalCents) {
            Some(t) => t,
            None => return Err(LedgerError::Storage),
        };
        let page: i64 = match params.page {
            Some(p) => p,
            None => 1,
        };
        let limit: i64 = match params.limit {
            Some(l) => l,
            None => 20,
        };
        let sales = self.page_by_time(&matching, page, limit);
        Ok(SalesItemsListResponse { sales, total_sales_period_cents: total })
    }

    /// One page of lines, latest first, resolved.
    pub fn page_by_time(&self, lines: &Vec<SaleItem>, page: i64, limit: i64) -> (r: Vec<SaleItem>)
        ensures
            r@ == page_of(lines_by_time(lines@), page as int, limit as int).map_values(
                |l: SaleItem| resolved(l, self.products@),
            ),
    {
        let mut keys: Vec<i64> = Vec::new();
        let mut i: usize = 0;
        while i < lines.len()
            invariant
                i <= lines@.len(),
                keys@ == line_keys(lines@).subrange(0, i as int),
            decreases lines@.len() - i,
        {
            keys.push(lines[i].date_of_sale.sort_key());
            assert(keys@ =~= line_keys(lines@).subrange(0, i as int + 1));
            i = i + 1;
        }
        assert(keys@ =~= line_keys(lines@));
        let order = order_desc(&keys);
        proof {
            lemma_desc_order_len(keys@, keys@.len());
        }
        let ghost sorted = lines_by_time(lines@);
        let (start, end) = page_range(order.len(), page, limit);
        let ghost want = page_of(sorted, page as int, limit as int).map_values(
            |l: SaleItem| resolved(l, self.products@),
        );
        let mut out: Vec<SaleItem> = Vec::new();
        let mut j: usize = start;
        while j < end
            invariant
                start <= j <= end <= order@.len(),
                order@.len() == lines@.len(),
                order@ == desc_order(line_keys(lines@), lines@.len()),
                forall|m: int| 0 <= m < order@.len() ==> (#[trigger] order@[m]) < lines@.len(),
                sorted == lines_by_time(lines@),
                start == page_bounds(sorted.len() as int, page as int, limit as int).0,
                end == page_bounds(sorted.len() as int, page as int, limit as int).1,
                want == page_of(sorted, page as int, limit as int).map_values(
                    |l: SaleItem| resolved(l, self.products@),
                ),
                out@ == want.subrange(0, j - start),
            decreases end - j,
        {
            let line = self.resolve_line(&lines[order[j]]);
            out.push(line);
            assert(out@ =~= want.subrange(0, j + 1 - start));
            j = j + 1;
        }
        assert(out@ =~= want);
        out
    }
}

/// The first customer with an identifier.
pub open spec fn customer_at(cs: Seq<Customer>, id: u128) -> Option<Customer>
    decreases cs.len(),
{
    if cs.len() == 0 {
        None
    } else if cs[0].id == id {
        Some(cs[0])
    } else {
        customer_at(cs.drop_first(), id)
    }
}

/// The free-text query matches the first or last name of the sale's
/// customer, or its receipt number, as a substring ignoring ASCII case.
pub open spec fn query_matches(cs: Seq<Customer>, h: SaleHeader, q: Seq<char>) -> bool {
    let by_name = match h.customer_id {
        Some(cid) => match customer_at(cs, cid) {
            Some(c) => contains_folded(c.first_name@, q) || contains_folded(c.last_name@, q),
            None => false,
        },
        None => false,
    };
    by_name || contains_folded(h.receipt_number@, q)
}

/// A filter given as absent or empty text is not applied.
pub open spec fn unset(f: Option<String>) -> bool {
    match f {
        Some(t) => t@.len() == 0,
        None => true,
    }
}

/// The text of a filter that is applied.
pub open spec fn set_text(f: Option<String>) -> Seq<char> {
    f.unwrap()@
}

/// A header passes the filters of the transaction list: the query, a first
/// and a last day, each applied only where given. A day bound that names no
/// day lets nothing pass.
pub open spec fn header_selected(cs: Seq<Customer>, h: SaleHeader, p: SalesSearchParams) -> bool {
    let day = h.date_and_time.day as int;
    &&& unset(p.query) || query_matches(cs, h, set_text(p.query))
    &&& unset(p.start_date) || (parsed_day(set_text(p.start_date)) matches Some(a) && a <= day)
    &&& unset(p.end_date) || (parsed_day(set_text(p.end_date)) matches Some(b) && day <= b)
}

pub open spec fn selected_headers(cs: Seq<Customer>, hs: Seq<SaleHeader>, p: SalesSearchParams) -> Seq<
    SaleHeader,
>
    decreases hs.len(),
{
    if hs.len() == 0 {
        Seq::empty()
    } else {
        let rest = selected_headers(cs, hs.drop_last(), p);
        if header_selected(cs, hs.last(), p) {
            rest.push(hs.last())
        } else {
            rest
        }
    }
}

pub open spec fn header_keys(hs: Seq<SaleHeader>) -> Seq<i64> {
    Seq::new(hs.len(), |i: int| hs[i].date_and_time.key() as i64)
}

/// Headers from the latest down; headers of the same moment keep their order.
pub open spec fn headers_by_time(hs: Seq<SaleHeader>) -> Seq<SaleHeader> {
    desc_order(header_keys(hs), hs.len()).map_values(|i: usize| hs[i as int])
}

/// The transaction list: one page of the headers that pass the filters,
/// latest first.
pub open spec fn transaction_list(s: LedgerState, p: SalesSearchParams) -> Seq<SaleHeader> {
    page_of(
        headers_by_time(selected_headers(s.customers, s.sales, p)),
        page_or_first(p.page),
        limit_or_default(p.limit),
    )
}

/// The headers of one staff member's sales whose day lies in the resolved
/// window, latest first.
pub open spec fn staff_list(s: LedgerState, staff: u128, p: StatsRangeParams, today: int) -> Seq<
    SaleHeader,
> {
    let range = resolved_range(p.start_date, p.end_date, today);
    headers_by_time(staff_headers(s.sales, staff, range.0, range.1))
}

pub open spec fn staff_headers(hs: Seq<SaleHeader>, staff: u128, start: Seq<char>, end: Seq<char>) -> Seq<
    SaleHeader,
>
    decreases hs.len(),
{
    if hs.len() == 0 {
        Seq::empty()
    } else {
        let rest = staff_headers(hs.drop_last(), staff, start, end);
        let h = hs.last();
        if h.staff_responsible == staff && in_window(h.date_and_time.day as int, start, end) {
            rest.push(h)
        } else {
            rest
        }
    }
}

/// Sales shown as headers only, without lines.
pub open spec fn shows_headers(r: Seq<Sale>, hs: Seq<SaleHeader>) -> bool {
    &&& r.len() == hs.len()
    &&& forall|i: int| 0 <= i < r.len() ==> (#[trigger] r[i]).header() == hs[i]
    &&& forall|i: int| 0 <= i < r.len() ==> (#[trigger] r[i]).sale_items@.len() == 0
}

fn day_filter(f: &Option<String>) -> (r: (bool, Option<i32>))
    ensures
        r.0 == unset(*f),
        !r.0 ==> (r.1 matches Some(d) ==> parsed_day(set_text(*f)) == Some(d as int)),
        !r.0 ==> (r.1 is None ==> parsed_day(set_text(*f)) is None),
{
    match f {
        Some(t) => if t.as_str().is_empty() {
            (true, None)
        } else {
            (false, parse_day(t.as_str()))
        },
        None => (true, None),
    }
}

impl Ledger {
    fn customer_position(&self, id: u128) -> (r: Option<usize>)
        ensures
            r matches Some(i) ==> i < self.customers@.len() && customer_at(self.customers@, id)
                == Some(self.customers@[i as int]),
            r is None ==> customer_at(self.customers@, id) is None,
    {
        let ghost cs = self.customers@;
        let mut i: usize = 0;
        assert(cs.subrange(0, cs.len() as int) =~= cs);
        while i < self.customers.len()
            invariant
                i <= cs.len(),
                cs == self.customers@,
                customer_at(cs, id) == customer_at(cs.subrange(i as int, cs.len() as int), id),
            decreases cs.len() - i,
        {
            if self.customers[i].id == id {
                return Some(i);
            }
            assert(cs.subrange(i as int, cs.len() as int).drop_first() =~= cs.subrange(
                i as int + 1,
                cs.len() as int,
            ));
            i = i + 1;
        }
        None
    }

    fn query_hits(&self, h: &SaleHeader, q: &String) -> (r: bool)
        ensures
            r == query_matches(self.customers@, *h, q@),
    {
        let by_name = match h.customer_id {
            Some(cid) => match self.customer_position(cid) {
                Some(i) => contains_ignoring_case(self.customers[i].first_name.as_str(), q.as_str())
                    || contains_ignoring_case(self.customers[i].last_name.as_str(), q.as_str()),
                None => false,
            },
            None => false,
        };
        by_name || contains_ignoring_case(h.receipt_number.as_str(), q.as_str())
    }

    fn passes(&self, h: &SaleHeader, p: &SalesSearchParams) -> (r: bool)
        ensures
            r == header_selected(self.customers@, *h, *p),
    {
        let day = h.date_and_time.day;
        let text_ok = match &p.query {
            Some(q) => q.as_str().is_empty() || self.query_hits(h, q),
            None => true,
        };
        let (no_start, start) = day_filter(&p.start_date);
        let (no_end, end) = day_filter(&p.end_date);
        let start_ok = no_start || match start {
            Some(a) => a <= day,
            None => false,
        };
        let end_ok = no_end || match end {
            Some(b) => day <= b,
            None => false,
        };
        text_ok && start_ok && end_ok
    }

    /// One page of the headers, latest first, as sales without lines.
    pub fn page_of_headers(hs: &Vec<SaleHeader>, page: i64, limit: i64) -> (r: Vec<Sale>)
        ensures
            shows_headers(r@, page_of(headers_by_time(hs@), page as int, limit as int)),
    {
        let mut keys: Vec<i64> = Vec::new();
        let mut i: usize = 0;
        while i < hs.len()
            invariant
                i <= hs@.len(),
                keys@ == header_keys(hs@).subrange(0, i as int),
            decreases hs@.len() - i,
        {
            keys.push(hs[i].date_and_time.sort_key());
            assert(keys@ =~= header_keys(hs@).subrange(0, i as int + 1));
            i = i + 1;
        }
        assert(keys@ =~= header_keys(hs@));
        let order = order_desc(&keys);
        proof {
            lemma_desc_order_len(keys@, keys@.len());
        }
        let ghost sorted = headers_by_time(hs@);
        let (start, end) = page_range(order.len(), page, limit);
        let ghost want = page_of(sorted, page as int, limit as int);
        let mut out: Vec<Sale> = Vec::new();
        let mut j: usize = start;
        while j < end
            invariant
                start <= j <= end <= order@.len(),
                order@.len() == hs@.len(),
                order@ == desc_order(header_keys(hs@), hs@.len()),
                forall|m: int| 0 <= m < order@.len() ==> (#[trigger] order@[m]) < hs@.len(),
                sorted == headers_by_time(hs@),
                start == page_bounds(sorted.len() as int, page as int, limit as int).0,
                end == page_bounds(sorted.len() as int, page as int, limit as int).1,
                want == page_of(sorted, page as int, limit as int),
                shows_headers(out@, want.subrange(0, j - start)),
            decreases end - j,
        {
            let h = hs[order[j]].duplicate();
            let sale = Sale::assemble(h, Vec::new());
            out.push(sale);
            assert(want.subrange(0, j + 1 - start)[j - start] == want[j - start]);
            assert(shows_headers(out@, want.subrange(0, j + 1 - start)));
            j = j + 1;
        }
        assert(want.subrange(0, end - start) =~= want);
        out
    }

    /// The transaction list (see `transaction_list`); lines are not included.
    pub fn list_sales_transactions(&self, params: &SalesSearchParams) -> (r: Vec<Sale>)
        ensures
            shows_headers(r@, transaction_list(self@, *params)),
    {
        let ghost hs = self.sales@;
        let mut chosen: Vec<SaleHeader> = Vec::new();
        let mut i: usize = 0;
        while i < self.sales.len()
            invariant
                i <= hs.len(),
                hs == self.sales@,
                chosen@ == selected_headers(self.customers@, hs.subrange(0, i as int), *params),
            decreases hs.len() - i,
        {
            assert(hs.subrange(0, i as int + 1).drop_last() =~= hs.subrange(0, i as int));
            if self.passes(&self.sales[i], params) {
                chosen.push(self.sales[i].duplicate());
            }
            i = i + 1;
        }
        assert(hs.subrange(0, hs.len() as int) =~= hs);
        let page: i64 = match params.page {
            Some(p) => p,
            None => 1,
        };
        let limit: i64 = match params.limit {
            Some(l) => l,
            None => 20,
        };
        Ledger::page_of_headers(&chosen, page, limit)
    }

    /// The sales of one staff member in the resolved window, latest first,
    /// all of them, without lines.
    pub fn get_staff_transactions(&self, staff: u128, params: &StatsRangeParams, today: i32) -> (r: Vec<
        Sale,
    >)
        requires
            valid_day(today as int),
        ensures
            shows_headers(r@, staff_list(self@, staff, *params, today as int)),
    {
        let range = resolve_date_range(
            copy_opt_string(&params.start_date),
            copy_opt_string(&params.end_date),
            today,
        );
        let bounds = window_bounds(range.0.as_str(), range.1.as_str());
        let ghost hs = self.sales@;
        let mut chosen: Vec<SaleHeader> = Vec::new();
        let mut i: usize = 0;
        while i < self.sales.len()
            invariant
                i <= hs.len(),
                hs == self.sales@,
                chosen@ == staff_headers(hs.subrange(0, i as int), staff, range.0@, range.1@),
                bounds matches Some(b) ==> parsed_day(range.0@) == Some(b.0 as int) && parsed_day(
                    range.1@,
                ) == Some(b.1 as int),
                bounds is None ==> parsed_day(range.0@) is None || parsed_day(range.1@) is None,
            decreases hs.len() - i,
        {
            assert(hs.subrange(0, i as int + 1).drop_last() =~= hs.subrange(0, i as int));
            let day = self.sales[i].date_and_time.day;
            let inside = match bounds {
                Some((a, b)) => a <= day && day <= b,
                None => false,
            };
            if self.sales[i].staff_responsible == staff && inside {
                chosen.push(self.sales[i].duplicate());
            }
            i = i + 1;
        }
        assert(hs.subrange(0, hs.len() as int) =~= hs);
        let r = Ledger::page_of_headers(&chosen, 1, -1);
        assert(page_of(headers_by_time(chosen@), 1, -1) =~= headers_by_time(chosen@));
        r
    }
}

} // verus!
