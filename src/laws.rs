use vstd::prelude::*;

use crate::dates::{date_text, valid_day, weekday_from_monday};
use crate::ledger::{
    created_lines, create_outcome, delete_outcome, get_outcome, header_at, header_of,
    item_id_taken, keys_free, lines_of, name_of, price_of, product_at, resolved, sale_id_taken,
    without_line, LedgerState,
};
use crate::models::{DailySales, LedgerError, Product, SaleHeader, SaleInput, SaleItem, SalesSearchParams, StatsRangeParams};
use crate::reading::{flat_list, window_lines};
use crate::dates::resolved_range;
use crate::reports::{
    catalog_lines, day_figures, day_lines, group_names, revenues_fit, shows_week, window_rows,
};

verus! {

/// No stored line names the header as its parent.
pub open spec fn no_line_refers(items: Seq<SaleItem>, sid: u128) -> bool {
    forall|i: int| 0 <= i < items.len() ==> (#[trigger] items[i]).sale_id != Some(sid)
}

proof fn lemma_lines_of_append(a: Seq<SaleItem>, b: Seq<SaleItem>, ps: Seq<Product>, sid: u128)
    ensures
        lines_of(a + b, ps, sid) == lines_of(a, ps, sid) + lines_of(b, ps, sid),
    decreases b.len(),
{
    if b.len() == 0 {
        assert(a + b =~= a);
        assert(lines_of(a, ps, sid) + lines_of(b, ps, sid) =~= lines_of(a, ps, sid));
    } else {
        assert((a + b).drop_last() =~= a + b.drop_last());
        lemma_lines_of_append(a, b.drop_last(), ps, sid);
        if b.last().sale_id == Some(sid) {
            assert(lines_of(a, ps, sid) + lines_of(b, ps, sid) =~= (lines_of(a, ps, sid)
                + lines_of(b.drop_last(), ps, sid)).push(resolved(b.last(), ps)));
        }
    }
}

proof fn lemma_lines_of_none(items: Seq<SaleItem>, ps: Seq<Product>, sid: u128)
    requires
        no_line_refers(items, sid),
    ensures
        lines_of(items, ps, sid) == Seq::<SaleItem>::empty(),
    decreases items.len(),
{
    if items.len() > 0 {
        assert(items.last() == items[items.len() - 1]);
        lemma_lines_of_none(items.drop_last(), ps, sid);
    }
}

proof fn lemma_lines_of_all(c: Seq<SaleItem>, ps: Seq<Product>, sid: u128)
    requires
        forall|k: int| 0 <= k < c.len() ==> (#[trigger] c[k]).sale_id == Some(sid),
    ensures
        lines_of(c, ps, sid) == c.map_values(|l: SaleItem| resolved(l, ps)),
    decreases c.len(),
{
    if c.len() > 0 {
        assert(c.last() == c[c.len() - 1]);
        lemma_lines_of_all(c.drop_last(), ps, sid);
        assert(c.map_values(|l: SaleItem| resolved(l, ps)) =~= c.drop_last().map_values(
            |l: SaleItem| resolved(l, ps),
        ).push(resolved(c.last(), ps)));
    }
}

/// The lines read back right after a write are the written lines, resolved.
proof fn lemma_read_back(
    s: LedgerState,
    inp: SaleInput,
    sid: u128,
    ids: Seq<u128>,
    ps: Seq<Product>,
)
    requires
        no_line_refers(s.items, sid),
    ensures
        lines_of(s.items + created_lines(inp.sale_items@, ids, sid, s.products), ps, sid)
            == created_lines(inp.sale_items@, ids, sid, s.products).map_values(
            |l: SaleItem| resolved(l, ps),
        ),
{
    let c = created_lines(inp.sale_items@, ids, sid, s.products);
    lemma_lines_of_append(s.items, c, ps, sid);
    lemma_lines_of_none(s.items, ps, sid);
    lemma_lines_of_all(c, ps, sid);
    assert(Seq::<SaleItem>::empty() + lines_of(c, ps, sid) =~= lines_of(c, ps, sid));
}

/// A successful write of a transaction with `n` lines, each of whose
/// products is in the catalog, returns exactly `n` lines, and each carries
/// the product's current name and price.
pub proof fn law_created_lines_carry_snapshots(
    s: LedgerState,
    inp: SaleInput,
    sid: u128,
    ids: Seq<u128>,
)
    requires
        ids.len() == inp.sale_items@.len(),
        keys_free(s, sid, ids),
        no_line_refers(s.items, sid),
        forall|k: int|
            0 <= k < inp.sale_items@.len() ==> product_at(
                s.products,
                (#[trigger] inp.sale_items@[k]).product_id,
            ) is Some,
    ensures
        create_outcome(s, inp, sid, ids).1 matches Ok(v) && v.1.len() == inp.sale_items@.len() && (
        forall|k: int|
            0 <= k < v.1.len() ==> {
                &&& (#[trigger] v.1[k]).product_name is Some
                &&& v.1[k].price_per_item is Some
                &&& v.1[k].product_name == name_of(s.products, inp.sale_items@[k].product_id)
                &&& v.1[k].price_per_item == price_of(s.products, inp.sale_items@[k].product_id)
            }),
{
    lemma_read_back(s, inp, sid, ids, s.products);
}

/// A line whose product is not in the catalog does not stop the write: the
/// transaction is recorded with every line, and that line shows no name and
/// no price.
pub proof fn law_missing_product_is_tolerated(
    s: LedgerState,
    inp: SaleInput,
    sid: u128,
    ids: Seq<u128>,
    k: int,
)
    requires
        ids.len() == inp.sale_items@.len(),
        keys_free(s, sid, ids),
        no_line_refers(s.items, sid),
        0 <= k < inp.sale_items@.len(),
        product_at(s.products, inp.sale_items@[k].product_id) is None,
    ensures
        create_outcome(s, inp, sid, ids).0.sales == s.sales.push(header_of(inp, sid)),
        create_outcome(s, inp, sid, ids).0.items.len() == s.items.len() + inp.sale_items@.len(),
        create_outcome(s, inp, sid, ids).1 matches Ok(v) && v.1.len() == inp.sale_items@.len()
            && v.1[k].product_name is None && v.1[k].price_per_item is None,
{
    lemma_read_back(s, inp, sid, ids, s.products);
}

/// A write that fails, here on a line after the header was placed, leaves
/// the store as it was: no header and no line of it is visible.
pub proof fn law_failed_write_leaves_nothing(
    s: LedgerState,
    inp: SaleInput,
    sid: u128,
    ids: Seq<u128>,
    k: int,
)
    requires
        ids.len() == inp.sale_items@.len(),
        0 <= k < ids.len(),
        item_id_taken(s.items, ids[k]),
    ensures
        create_outcome(s, inp, sid, ids) == (s, Err::<(SaleHeader, Seq<SaleItem>), LedgerError>(
            LedgerError::Storage,
        )),
        !sale_id_taken(s.sales, sid) ==> !sale_id_taken(create_outcome(s, inp, sid, ids).0.sales, sid),
{
}

/// Any refused write leaves the store as it was.
pub proof fn law_refused_write_changes_nothing(
    s: LedgerState,
    inp: SaleInput,
    sid: u128,
    ids: Seq<u128>,
)
    ensures
        create_outcome(s, inp, sid, ids).1 is Err ==> create_outcome(s, inp, sid, ids).0 == s,
{
}

proof fn lemma_header_at_push(hs: Seq<SaleHeader>, h: SaleHeader)
    requires
        !sale_id_taken(hs, h.id),
    ensures
        header_at(hs.push(h), h.id) == Some(h),
    decreases hs.len(),
{
    if hs.len() == 0 {
    } else {
        assert(hs[0].id != h.id);
        assert(hs.push(h).drop_first() =~= hs.drop_first().push(h));
        assert forall|i: int| 0 <= i < hs.drop_first().len() implies hs.drop_first()[i].id != h.id by {
            assert(hs.drop_first()[i] == hs[i + 1]);
        }
        lemma_header_at_push(hs.drop_first(), h);
    }
}

/// A transaction read back shows the amounts written and the names and
/// prices that the products had when it was written, whatever the catalog
/// holds since.
pub proof fn law_round_trip_keeps_snapshots(
    s: LedgerState,
    inp: SaleInput,
    sid: u128,
    ids: Seq<u128>,
    later: Seq<Product>,
)
    requires
        ids.len() == inp.sale_items@.len(),
        keys_free(s, sid, ids),
        no_line_refers(s.items, sid),
        forall|k: int|
            0 <= k < inp.sale_items@.len() ==> product_at(
                s.products,
                (#[trigger] inp.sale_items@[k]).product_id,
            ) is Some,
    ensures
        ({
            let s3 = LedgerState { products: later, ..create_outcome(s, inp, sid, ids).0 };
            get_outcome(s3, sid) matches Ok(v) && v.0 == header_of(inp, sid) && v.1.len()
                == inp.sale_items@.len() && (forall|k: int|
                0 <= k < v.1.len() ==> {
                    let w = inp.sale_items@[k];
                    &&& (#[trigger] v.1[k]).product_id == w.product_id
                    &&& v.1[k].quantity == w.quantity
                    &&& v.1[k].total_cents == w.total_cents
                    &&& v.1[k].total_resolved == w.total_resolved
                    &&& v.1[k].discount == w.discount
                    &&& v.1[k].product_name == name_of(s.products, w.product_id)
                    &&& v.1[k].price_per_item == price_of(s.products, w.product_id)
                })
        }),
{
    lemma_read_back(s, inp, sid, ids, later);
    lemma_header_at_push(s.sales, header_of(inp, sid));
}

proof fn lemma_without_keeps(items: Seq<SaleItem>, id: u128, i: int)
    requires
        0 <= i < items.len(),
        items[i].id != id,
    ensures
        without_line(items, id).contains(items[i]),
    decreases items.len(),
{
    if i == items.len() - 1 {
        assert(without_line(items, id).last() == items[i]);
    } else {
        assert(items.drop_last()[i] == items[i]);
        lemma_without_keeps(items.drop_last(), id, i);
        let w = without_line(items.drop_last(), id);
        let j = choose|j: int| 0 <= j < w.len() && w[j] == items[i];
        if items.last().id != id {
            assert(w.push(items.last())[j] == items[i]);
        }
    }
}

/// Deleting one line keeps every header as it was, totals included, and
/// keeps every other line.
pub proof fn law_delete_line_keeps_the_rest(s: LedgerState, id: u128)
    ensures
        delete_outcome(s, id).0.sales == s.sales,
        delete_outcome(s, id).0.products == s.products,
        forall|i: int|
            0 <= i < s.items.len() && (#[trigger] s.items[i]).id != id ==> delete_outcome(
                s,
                id,
            ).0.items.contains(s.items[i]),
{
    assert forall|i: int| 0 <= i < s.items.len() && (#[trigger] s.items[i]).id != id implies delete_outcome(
        s,
        id,
    ).0.items.contains(s.items[i]) by {
        if item_id_taken(s.items, id) {
            lemma_without_keeps(s.items, id, i);
        }
    }
}

/// On a Wednesday the weekly series has three buckets: Monday, Tuesday and
/// Wednesday.
pub proof fn law_wednesday_has_three_buckets(items: Seq<SaleItem>, today: int, r: Seq<DailySales>)
    requires
        valid_day(today),
        weekday_from_monday(today) == 2,
        shows_week(r, items, today),
    ensures
        r.len() == 3,
        r[0].date@ == date_text(today - 2),
        r[1].date@ == date_text(today - 1),
        r[2].date@ == date_text(today),
{
    assert(r[0].date@ == date_text(today - 2 + 0));
    assert(r[1].date@ == date_text(today - 2 + 1));
    assert(r[2].date@ == date_text(today - 2 + 2));
}

proof fn lemma_day_lines_empty(items: Seq<SaleItem>, day: int)
    requires
        forall|i: int| 0 <= i < items.len() ==> (#[trigger] items[i]).date_of_sale.day != day,
    ensures
        day_lines(items, day) == Seq::<SaleItem>::empty(),
    decreases items.len(),
{
    if items.len() > 0 {
        assert(items.last() == items[items.len() - 1]);
        lemma_day_lines_empty(items.drop_last(), day);
    }
}

/// A day without lines has a bucket of zero revenue and zero lines.
pub proof fn law_quiet_day_is_zero(items: Seq<SaleItem>, day: int)
    requires
        forall|i: int| 0 <= i < items.len() ==> (#[trigger] items[i]).date_of_sale.day != day,
    ensures
        day_figures(items, day) == Some((0int, 0int)),
{
    lemma_day_lines_empty(items, day);
}

/// A window without sales gives the product reports no rows, and no
/// failure.
pub proof fn law_quiet_window_has_no_rows(s: LedgerState, p: StatsRangeParams, today: int)
    requires
        ({
            let range = resolved_range(p.start_date, p.end_date, today);
            window_lines(s.items, range.0, range.1).len() == 0
        }),
    ensures
        window_rows(s, p, today).len() == 0,
        revenues_fit(window_rows(s, p, today)),
{
    let range = resolved_range(p.start_date, p.end_date, today);
    let w = window_lines(s.items, range.0, range.1);
    assert(catalog_lines(w, s).len() == 0);
    assert(group_names(catalog_lines(w, s), s).len() == 0);
}

/// The period total of the flat list covers every line of the window: two
/// requests for the same window give the same total, whatever their page
/// and page size.
pub proof fn law_period_total_ignores_paging(
    s: LedgerState,
    a: SalesSearchParams,
    b: SalesSearchParams,
    today: int,
)
    requires
        a.start_date == b.start_date,
        a.end_date == b.end_date,
    ensures
        flat_list(s, a, today) is Ok <==> flat_list(s, b, today) is Ok,
        flat_list(s, a, today) matches Ok(x) ==> (flat_list(s, b, today) matches Ok(y) && x.1
            == y.1),
{
}

} // verus!
