use vstd::prelude::*;

use crate::dates::{
    day_text, date_text, days_since_monday, resolve_date_range, resolved_range, valid_day,
    weekday_from_monday,
};
use crate::ledger::{name_of, Ledger, LedgerState};
use crate::listing::{desc_order, lemma_desc_order_len, order_desc};
use crate::models::{
    copy_opt_string, DailySales, LedgerError, ProductSalesSummary, SaleItem, SalesStats,
    StatsRangeParams, TopProduct,
};
use crate::reading::{fits_i64, sum_amount, total_of, window_lines, Amount};

verus! {

/// Most rows the top-products report shows.
pub const TOP_PRODUCTS_CAP: usize = 20;

/// The lines of one day.
pub open spec fn day_lines(items: Seq<SaleItem>, day: int) -> Seq<SaleItem>
    decreases items.len(),
{
    if items.len() == 0 {
        Seq::empty()
    } else {
        let rest = day_lines(items.drop_last(), day);
        if items.last().date_of_sale.day == day {
            rest.push(items.last())
        } else {
            rest
        }
    }
}

/// Revenue and number of lines of one day, where both fit in 64 bits.
pub open spec fn day_figures(items: Seq<SaleItem>, day: int) -> Option<(int, int)> {
    let lines = day_lines(items, day);
    let total = sum_amount(lines, Amount::TotalResolved);
    if fits_i64(total) && fits_i64(lines.len() as int) {
        Some((total, lines.len() as int))
    } else {
        None
    }
}

/// The Monday on or before a day.
pub open spec fn week_start(day: int) -> int {
    day - weekday_from_monday(day)
}

/// Every day of the week so far has figures that fit.
pub open spec fn week_fits(items: Seq<SaleItem>, today: int) -> bool {
    forall|k: int|
        0 <= k <= weekday_from_monday(today) ==> (#[trigger] day_figures(
            items,
            week_start(today) + k,
        )) is Some
}

/// The weekly series: one bucket for each day from the Monday on or before
/// today through today, with zero for a day without lines.
pub open spec fn shows_week(r: Seq<DailySales>, items: Seq<SaleItem>, today: int) -> bool {
    &&& r.len() == weekday_from_monday(today) + 1
    &&& forall|k: int|
        0 <= k < r.len() ==> {
            let d = week_start(today) + k;
            &&& (#[trigger] r[k]).date@ == date_text(d)
            &&& r[k].total_sales_cents == day_figures(items, d).unwrap().0
            &&& r[k].count == day_figures(items, d).unwrap().1
        }
}

/// The lines whose product is in the catalog; the reports join the catalog
/// and name each line by the product's current name.
pub open spec fn catalog_lines(lines: Seq<SaleItem>, s: LedgerState) -> Seq<SaleItem>
    decreases lines.len(),
{
    if lines.len() == 0 {
        Seq::empty()
    } else {
        let rest = catalog_lines(lines.drop_last(), s);
        if name_of(s.products, lines.last().product_id) is Some {
            rest.push(lines.last())
        } else {
            rest
        }
    }
}

/// The current catalog name of a line's product.
pub open spec fn line_name(line: SaleItem, s: LedgerState) -> Seq<char> {
    name_of(s.products, line.product_id).unwrap()@
}

/// The distinct product names of lines, in the order in which they first
/// occur.
pub open spec fn group_names(lines: Seq<SaleItem>, s: LedgerState) -> Seq<Seq<char>>
    decreases lines.len(),
{
    if lines.len() == 0 {
        Seq::empty()
    } else {
        let rest = group_names(lines.drop_last(), s);
        if rest.contains(line_name(lines.last(), s)) {
            rest
        } else {
            rest.push(line_name(lines.last(), s))
        }
    }
}

/// The lines of a product name.
pub open spec fn lines_named(lines: Seq<SaleItem>, s: LedgerState, name: Seq<char>) -> Seq<SaleItem>
    decreases lines.len(),
{
    if lines.len() == 0 {
        Seq::empty()
    } else {
        let rest = lines_named(lines.drop_last(), s, name);
        if line_name(lines.last(), s) == name {
            rest.push(lines.last())
        } else {
            rest
        }
    }
}

/// A row of the per-product report: name, quantity sold, revenue.
pub type ProductRow = (Seq<char>, int, int);

/// One row per product name, in the order in which names first occur.
pub open spec fn product_rows(lines: Seq<SaleItem>, s: LedgerState) -> Seq<ProductRow> {
    group_names(lines, s).map_values(
        |n: Seq<char>|
            (
                n,
                sum_amount(lines_named(lines, s, n), Amount::Quantity),
                sum_amount(lines_named(lines, s, n), Amount::TotalResolved),
            ),
    )
}

pub open spec fn revenue_keys(rows: Seq<ProductRow>) -> Seq<i64> {
    Seq::new(rows.len(), |i: int| rows[i].2 as i64)
}

/// Rows from the largest revenue down; equal revenues keep their order.
pub open spec fn rows_by_revenue(rows: Seq<ProductRow>) -> Seq<ProductRow> {
    desc_order(revenue_keys(rows), rows.len()).map_values(|i: usize| rows[i as int])
}

/// The rows of the window's lines whose product is in the catalog.
pub open spec fn window_rows(s: LedgerState, p: StatsRangeParams, today: int) -> Seq<ProductRow> {
    let range = resolved_range(p.start_date, p.end_date, today);
    product_rows(catalog_lines(window_lines(s.items, range.0, range.1), s), s)
}

pub open spec fn revenues_fit(rows: Seq<ProductRow>) -> bool {
    forall|i: int| 0 <= i < rows.len() ==> fits_i64(#[trigger] rows[i].2)
}

pub open spec fn quantities_fit(rows: Seq<ProductRow>) -> bool {
    forall|i: int| 0 <= i < rows.len() ==> fits_i64(#[trigger] rows[i].1)
}

/// The per-product report shows these rows.
pub open spec fn shows_summary(r: Seq<ProductSalesSummary>, rows: Seq<ProductRow>) -> bool {
    &&& r.len() == rows.len()
    &&& forall|i: int|
        0 <= i < r.len() ==> {
            &&& (#[trigger] r[i]).product_name@ == rows[i].0
            &&& r[i].total_quantity == rows[i].1
            &&& r[i].total_amount_cents == rows[i].2
        }
}

/// A report shows rows: names and revenues, and quantities where asked for.
pub open spec fn shows_rows(r: Seq<ProductSalesSummary>, rows: Seq<ProductRow>, with_quantity: bool) -> bool {
    &&& r.len() == rows.len()
    &&& forall|i: int|
        0 <= i < r.len() ==> {
            &&& (#[trigger] r[i]).product_name@ == rows[i].0
            &&& (with_quantity ==> r[i].total_quantity == rows[i].1)
            &&& r[i].total_amount_cents == rows[i].2
        }
}

/// The top-products report shows these rows.
pub open spec fn shows_top(r: Seq<TopProduct>, rows: Seq<ProductRow>) -> bool {
    &&& r.len() == rows.len()
    &&& forall|i: int|
        0 <= i < r.len() ==> {
            &&& (#[trigger] r[i]).product_name@ == rows[i].0
            &&& r[i].total_sales_cents == rows[i].2
        }
}

/// The first rows, at most `cap` of them.
pub open spec fn capped<T>(rows: Seq<T>, cap: int) -> Seq<T> {
    if rows.len() <= cap {
        rows
    } else {
        rows.take(cap)
    }
}

impl Ledger {
    /// The lines of one day, in the order of the store.
    pub fn lines_on(&self, day: i32) -> (r: Vec<SaleItem>)
        ensures
            r@ == day_lines(self.items@, day as int),
    {
        let ghost items = self.items@;
        let mut out: Vec<SaleItem> = Vec::new();
        let mut i: usize = 0;
        while i < self.items.len()
            invariant
                i <= items.len(),
                items == self.items@,
                out@ == day_lines(items.subrange(0, i as int), day as int),
            decreases items.len() - i,
        {
            assert(items.subrange(0, i as int + 1).drop_last() =~= items.subrange(0, i as int));
            if self.items[i].date_of_sale.day == day {
                out.push(self.items[i].duplicate());
            }
            i = i + 1;
        }
        assert(items.subrange(0, items.len() as int) =~= items);
        out
    }

    fn figures_of(&self, day: i32) -> (r: Option<(i64, i64)>)
        ensures
            match day_figures(self.items@, day as int) {
                Some(f) => r matches Some(v) && v.0 == f.0 && v.1 == f.1,
                None => r is None,
            },
    {
        let lines = self.lines_on(day);
        let total = match total_of(&lines, Amount::TotalResolved) {
            Some(t) => t,
            None => return None,
        };
        let count = lines.len() as u64;
        if count > 0x7fff_ffff_ffff_ffffu64 {
            return None;
        }
        Some((total, count as i64))
    }

    /// Revenue (`total_resolved`) and number of lines of today; zero for a
    /// day without lines. Figures that do not fit are a store failure.
    pub fn get_today_sales(&self, today: i32) -> (r: Result<SalesStats, LedgerError>)
        ensures
            match day_figures(self.items@, today as int) {
                Some(f) => r == Ok::<SalesStats, LedgerError>(
                    SalesStats { total_sales_cents: f.0 as i64, count: f.1 as i64 },
                ),
                None => r == Err::<SalesStats, LedgerError>(LedgerError::Storage),
            },
    {
        match self.figures_of(today) {
            Some((t, c)) => Ok(SalesStats { total_sales_cents: t, count: c }),
            None => Err(LedgerError::Storage),
        }
    }

    /// The weekly series (see `shows_week`). Figures that do not fit are a
    /// store failure.
    pub fn get_weekly_sales_stats(&self, today: i32) -> (r: Result<Vec<DailySales>, LedgerError>)
        requires
            valid_day(today as int),
        ensures
            week_fits(self.items@, today as int) <==> r is Ok,
            r matches Ok(v) ==> shows_week(v@, self.items@, today as int),
    {
        let back = days_since_monday(today);
        let monday = today - back as i32;
        let mut out: Vec<DailySales> = Vec::new();
        let mut k: u32 = 0;
        while k <= back
            invariant
                back == weekday_from_monday(today as int),
                back < 7,
                valid_day(today as int),
                monday == week_start(today as int),
                k <= back + 1,
                out@.len() == k,
                forall|m: int| 0 <= m < k ==> (#[trigger] day_figures(
                    self.items@,
                    week_start(today as int) + m,
                )) is Some,
                forall|m: int|
                    0 <= m < k ==> {
                        let d = week_start(today as int) + m;
                        &&& (#[trigger] out@[m]).date@ == date_text(d)
                        &&& out@[m].total_sales_cents == day_figures(self.items@, d).unwrap().0
                        &&& out@[m].count == day_figures(self.items@, d).unwrap().1
                    },
            decreases back + 1 - k,
        {
            let day = monday + k as i32;
            match self.figures_of(day) {
                Some((t, c)) => {
                    let date = day_text(day);
                    out.push(DailySales { date, total_sales_cents: t, count: c });
                },
                None => {
                    assert(day_figures(self.items@, week_start(today as int) + k) is None);
                    return Err(LedgerError::Storage);
                },
            }
            k = k + 1;
        }
        Ok(out)
    }

    fn catalog_only(&self, lines: &Vec<SaleItem>) -> (r: (Vec<SaleItem>, Vec<String>))
        ensures
            r.0@ == catalog_lines(lines@, self@),
            r.1@.len() == r.0@.len(),
            forall|i: int| 0 <= i < r.1@.len() ==> (#[trigger] r.1@[i])@ == line_name(r.0@[i], self@),
    {
        let mut out: Vec<SaleItem> = Vec::new();
        let mut names: Vec<String> = Vec::new();
        let mut i: usize = 0;
        while i < lines.len()
            invariant
                i <= lines@.len(),
                out@ == catalog_lines(lines@.subrange(0, i as int), self@),
                names@.len() == out@.len(),
                forall|j: int| 0 <= j < names@.len() ==> (#[trigger] names@[j])@ == line_name(out@[j], self@),
            decreases lines@.len() - i,
        {
            assert(lines@.subrange(0, i as int + 1).drop_last() =~= lines@.subrange(0, i as int));
            let (name, _) = self.snapshot_of(lines[i].product_id);
            match name {
                Some(n) => {
                    out.push(lines[i].duplicate());
                    names.push(n);
                },
                None => {},
            }
            i = i + 1;
        }
        assert(lines@.subrange(0, lines@.len() as int) =~= lines@);
        (out, names)
    }

    /// The rows of the window's lines, grouped by current product name, or
    /// `None` where a sum does not fit.
    fn grouped(&self, params: &StatsRangeParams, today: i32, with_quantity: bool) -> (r: Option<Vec<ProductSalesSummary>>)
        requires
            valid_day(today as int),
        ensures
            r matches Some(v) ==> shows_rows(
                v@,
                rows_by_revenue(window_rows(self@, *params, today as int)),
                with_quantity,
            ),
            r matches Some(v) ==> revenues_fit(window_rows(self@, *params, today as int)),
            r is None ==> !revenues_fit(window_rows(self@, *params, today as int)) || (with_quantity
                && !quantities_fit(window_rows(self@, *params, today as int))),
            with_quantity && r is Some ==> quantities_fit(window_rows(self@, *params, today as int)),
    {
        let range = resolve_date_range(
            copy_opt_string(&params.start_date),
            copy_opt_string(&params.end_date),
            today,
        );
        let window = self.lines_in_window(&range.0, &range.1);
        let (lines, names) = self.catalog_only(&window);
        let ghost rows = window_rows(self@, *params, today as int);
        // distinct names in order of first occurrence
        let mut groups: Vec<String> = Vec::new();
        let mut i: usize = 0;
        while i < lines.len()
            invariant
                i <= lines@.len(),
                names@.len() == lines@.len(),
                forall|j: int| 0 <= j < names@.len() ==> (#[trigger] names@[j])@ == line_name(lines@[j], self@),
                groups@.map_values(|g: String| g@) == group_names(lines@.subrange(0, i as int), self@),
            decreases lines@.len() - i,
        {
            assert(lines@.subrange(0, i as int + 1).drop_last() =~= lines@.subrange(0, i as int));
            let ghost seen = groups@.map_values(|g: String| g@);
            let mut j: usize = 0;
            let mut found = false;
            while j < groups.len() && !found
                invariant
                    j <= groups@.len(),
                    seen == groups@.map_values(|g: String| g@),
                    found ==> seen.contains(names@[i as int]@),
                    !found ==> forall|t: int| 0 <= t < j ==> seen[t] != names@[i as int]@,
                    i < names@.len(),
                decreases groups@.len() - j + (if found { 0int } else { 1int }),
            {
                if groups[j] == names[i] {
                    found = true;
                    assert(seen[j as int] == names@[i as int]@);
                } else {
                    j = j + 1;
                }
            }
            if !found {
                groups.push(names[i].clone());
                assert(groups@.map_values(|g: String| g@) =~= seen.push(names@[i as int]@));
            }
            i = i + 1;
        }
        assert(lines@.subrange(0, lines@.len() as int) =~= lines@);
        assert(rows.len() == groups@.map_values(|x: String| x@).len());
        // the sums of each group
        let mut rows_out: Vec<ProductSalesSummary> = Vec::new();
        let mut g: usize = 0;
        while g < groups.len()
            invariant
                g <= groups@.len(),
                names@.len() == lines@.len(),
                forall|j: int| 0 <= j < names@.len() ==> (#[trigger] names@[j])@ == line_name(lines@[j], self@),
                groups@.map_values(|x: String| x@) == group_names(lines@, self@),
                rows == product_rows(lines@, self@),
                rows == window_rows(self@, *params, today as int),
                rows.len() == groups@.len(),
                rows_out@.len() == g,
                forall|m: int| 0 <= m < g ==> fits_i64(#[trigger] rows[m].2),
                with_quantity ==> forall|m: int| 0 <= m < g ==> fits_i64(#[trigger] rows[m].1),
                forall|m: int|
                    0 <= m < g ==> {
                        &&& (#[trigger] rows_out@[m]).product_name@ == rows[m].0
                        &&& (with_quantity ==> rows_out@[m].total_quantity == rows[m].1)
                        &&& rows_out@[m].total_amount_cents == rows[m].2
                    },
            decreases groups@.len() - g,
        {
            assert(groups@.map_values(|x: String| x@)[g as int] == groups@[g as int]@);
            let named = self.named_subset(&lines, &names, &groups[g]);
            assert(rows[g as int].2 == sum_amount(named@, Amount::TotalResolved));
            assert(rows[g as int].1 == sum_amount(named@, Amount::Quantity));
            let revenue = match total_of(&named, Amount::TotalResolved) {
                Some(t) => t,
                None => {
                    assert(!fits_i64(rows[g as int].2));
                    return None;
                },
            };
            let quantity = if with_quantity {
                match total_of(&named, Amount::Quantity) {
                    Some(q) => q,
                    None => {
                        assert(!fits_i64(rows[g as int].1));
                        return None;
                    },
                }
            } else {
                0
            };
            rows_out.push(
                ProductSalesSummary {
                    product_name: groups[g].clone(),
                    total_quantity: quantity,
                    total_amount_cents: revenue,
                },
            );
            g = g + 1;
        }
        // order by revenue
        let mut keys: Vec<i64> = Vec::new();
        let mut t: usize = 0;
        while t < rows_out.len()
            invariant
                t <= rows_out@.len(),
                rows_out@.len() == rows.len(),
                forall|m: int| 0 <= m < rows.len() ==> (#[trigger] rows_out@[m]).total_amount_cents == rows[m].2,
                keys@ == revenue_keys(rows).subrange(0, t as int),
            decreases rows_out@.len() - t,
        {
            keys.push(rows_out[t].total_amount_cents);
            assert(keys@ =~= revenue_keys(rows).subrange(0, t as int + 1));
            t = t + 1;
        }
        assert(keys@ =~= revenue_keys(rows));
        let order = order_desc(&keys);
        proof {
            lemma_desc_order_len(keys@, keys@.len());
        }
        let ghost sorted = rows_by_revenue(rows);
        let mut out: Vec<ProductSalesSummary> = Vec::new();
        let mut j: usize = 0;
        while j < order.len()
            invariant
                j <= order@.len(),
                order@.len() == rows.len(),
                rows_out@.len() == rows.len(),
                order@ == desc_order(revenue_keys(rows), rows.len()),
                forall|m: int| 0 <= m < order@.len() ==> (#[trigger] order@[m]) < rows.len(),
                sorted == rows_by_revenue(rows),
                forall|m: int|
                    0 <= m < rows.len() ==> {
                        &&& (#[trigger] rows_out@[m]).product_name@ == rows[m].0
                        &&& (with_quantity ==> rows_out@[m].total_quantity == rows[m].1)
                        &&& rows_out@[m].total_amount_cents == rows[m].2
                    },
                out@.len() == j,
                forall|m: int|
                    0 <= m < j ==> {
                        &&& (#[trigger] out@[m]).product_name@ == sorted[m].0
                        &&& (with_quantity ==> out@[m].total_quantity == sorted[m].1)
                        &&& out@[m].total_amount_cents == sorted[m].2
                    },
            decreases order@.len() - j,
        {
            let src = &rows_out[order[j]];
            out.push(
                ProductSalesSummary {
                    product_name: src.product_name.clone(),
                    total_quantity: src.total_quantity,
                    total_amount_cents: src.total_amount_cents,
                },
            );
            j = j + 1;
        }
        Some(out)
    }

    fn named_subset(&self, lines: &Vec<SaleItem>, names: &Vec<String>, name: &String) -> (r: Vec<SaleItem>)
        requires
            names@.len() == lines@.len(),
            forall|j: int| 0 <= j < names@.len() ==> (#[trigger] names@[j])@ == line_name(lines@[j], self@),
        ensures
            r@ == lines_named(lines@, self@, name@),
    {
        let mut out: Vec<SaleItem> = Vec::new();
        let mut i: usize = 0;
        while i < lines.len()
            invariant
                i <= lines@.len(),
                names@.len() == lines@.len(),
                forall|j: int| 0 <= j < names@.len() ==> (#[trigger] names@[j])@ == line_name(lines@[j], self@),
                out@ == lines_named(lines@.subrange(0, i as int), self@, name@),
            decreases lines@.len() - i,
        {
            assert(lines@.subrange(0, i as int + 1).drop_last() =~= lines@.subrange(0, i as int));
            assert(names@[i as int]@ == line_name(lines@[i as int], self@));
            if names[i] == *name {
                out.push(lines[i].duplicate());
            }
            i = i + 1;
        }
        assert(lines@.subrange(0, lines@.len() as int) =~= lines@);
        out
    }
    /// Revenue by current product name over the resolved window, largest
    /// first, at most twenty rows. A window without sales gives no rows. A
    /// revenue that does not fit is a store failure.
    pub fn get_top_products(&self, params: &StatsRangeParams, today: i32) -> (r: Result<
        Vec<TopProduct>,
        LedgerError,
    >)
        requires
            valid_day(today as int),
        ensures
            r is Ok <==> revenues_fit(window_rows(self@, *params, today as int)),
            r matches Ok(v) ==> shows_top(
                v@,
                capped(
                    rows_by_revenue(window_rows(self@, *params, today as int)),
                    TOP_PRODUCTS_CAP as int,
                ),
            ),
    {
        let rows = match self.grouped(params, today, false) {
            Some(v) => v,
            None => return Err(LedgerError::Storage),
        };
        let ghost want = capped(
            rows_by_revenue(window_rows(self@, *params, today as int)),
            TOP_PRODUCTS_CAP as int,
        );
        let n = if rows.len() < TOP_PRODUCTS_CAP {
            rows.len()
        } else {
            TOP_PRODUCTS_CAP
        };
        let mut out: Vec<TopProduct> = Vec::new();
        let mut i: usize = 0;
        while i < n
            invariant
                n <= rows@.len(),
                n == want.len(),
                i <= n,
                shows_rows(rows@, rows_by_revenue(window_rows(self@, *params, today as int)), false),
                want == capped(
                    rows_by_revenue(window_rows(self@, *params, today as int)),
                    TOP_PRODUCTS_CAP as int,
                ),
                out@.len() == i,
                forall|m: int|
                    0 <= m < i ==> {
                        &&& (#[trigger] out@[m]).product_name@ == want[m].0
                        &&& out@[m].total_sales_cents == want[m].2
                    },
            decreases n - i,
        {
            out.push(
                TopProduct {
                    product_name: rows[i].product_name.clone(),
                    total_sales_cents: rows[i].total_amount_cents,
                },
            );
            i = i + 1;
        }
        Ok(out)
    }

    /// Quantity and revenue by current product name over the resolved
    /// window, largest revenue first, every row. A sum that does not fit is a
    /// store failure.
    pub fn get_sales_by_product(&self, params: &StatsRangeParams, today: i32) -> (r: Result<
        Vec<ProductSalesSummary>,
        LedgerError,
    >)
        requires
            valid_day(today as int),
        ensures
            r is Ok <==> revenues_fit(window_rows(self@, *params, today as int)) && quantities_fit(
                window_rows(self@, *params, today as int),
            ),
            r matches Ok(v) ==> shows_summary(
                v@,
                rows_by_revenue(window_rows(self@, *params, today as int)),
            ),
    {
        match self.grouped(params, today, true) {
            Some(v) => Ok(v),
            None => Err(LedgerError::Storage),
        }
    }
}

} // verus!
