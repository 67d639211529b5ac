use vstd::prelude::*;

use crate::ids::{fresh_id, parse_id, uuid_of_text};
use crate::models::{
    copy_opt_string, Customer, LedgerError, Product, Sale, SaleHeader, SaleInput, SaleItem,
    SaleItemInput,
};

verus! {

/// The store of the back office: catalog, customers, sale headers and lines,
/// each in the order of insertion.
pub struct Ledger {
    pub products: Vec<Product>,
    pub customers: Vec<Customer>,
    pub sales: Vec<SaleHeader>,
    pub items: Vec<SaleItem>,
}

/// The contents of a ledger.
pub struct LedgerState {
    pub products: Seq<Product>,
    pub customers: Seq<Customer>,
    pub sales: Seq<SaleHeader>,
    pub items: Seq<SaleItem>,
}

impl View for Ledger {
    type V = LedgerState;

    open spec fn view(&self) -> LedgerState {
        LedgerState {
            products: self.products@,
            customers: self.customers@,
            sales: self.sales@,
            items: self.items@,
        }
    }
}

/// What a read of a transaction returns: its header and its resolved lines.
pub type SaleView = (SaleHeader, Seq<SaleItem>);

/// The first product of the catalog with an identifier.
pub open spec fn product_at(ps: Seq<Product>, id: u128) -> Option<Product>
    decreases ps.len(),
{
    if ps.len() == 0 {
        None
    } else if ps[0].id == id {
        Some(ps[0])
    } else {
        product_at(ps.drop_first(), id)
    }
}

/// The current catalog name of a product, if it exists.
pub open spec fn name_of(ps: Seq<Product>, id: u128) -> Option<String> {
    match product_at(ps, id) {
        Some(p) => Some(p.name),
        None => None,
    }
}

/// The current catalog price of a product, if it exists.
pub open spec fn price_of(ps: Seq<Product>, id: u128) -> Option<i64> {
    match product_at(ps, id) {
        Some(p) => Some(p.price_cents),
        None => None,
    }
}

/// A line as written: the caller's values, and the snapshot of the product
/// taken from the catalog at the moment of writing.
pub open spec fn stored_line(
    inp: SaleItemInput,
    id: u128,
    sale_id: Option<u128>,
    ps: Seq<Product>,
) -> SaleItem {
    SaleItem {
        id,
        sale_id,
        product_id: inp.product_id,
        customer_id: inp.customer_id,
        date_of_sale: inp.date_of_sale,
        quantity: inp.quantity,
        discount: inp.discount,
        total_cents: inp.total_cents,
        total_resolved: inp.total_resolved,
        note: inp.note,
        product_name: name_of(ps, inp.product_id),
        price_per_item: price_of(ps, inp.product_id),
    }
}

/// A line as read: a snapshot value stored on the line wins; a line without
/// one shows the product's current value.
pub open spec fn resolved(line: SaleItem, ps: Seq<Product>) -> SaleItem {
    SaleItem {
        product_name: if line.product_name is Some {
            line.product_name
        } else {
            name_of(ps, line.product_id)
        },
        price_per_item: if line.price_per_item is Some {
            line.price_per_item
        } else {
            price_of(ps, line.product_id)
        },
        ..line
    }
}

/// The resolved lines that belong to a header, in the order of the store.
pub open spec fn lines_of(items: Seq<SaleItem>, ps: Seq<Product>, sid: u128) -> Seq<SaleItem>
    decreases items.len(),
{
    if items.len() == 0 {
        Seq::empty()
    } else {
        let rest = lines_of(items.drop_last(), ps, sid);
        if items.last().sale_id == Some(sid) {
            rest.push(resolved(items.last(), ps))
        } else {
            rest
        }
    }
}

/// The first header with an identifier.
pub open spec fn header_at(sales: Seq<SaleHeader>, id: u128) -> Option<SaleHeader>
    decreases sales.len(),
{
    if sales.len() == 0 {
        None
    } else if sales[0].id == id {
        Some(sales[0])
    } else {
        header_at(sales.drop_first(), id)
    }
}

/// The first line with an identifier.
pub open spec fn item_at(items: Seq<SaleItem>, id: u128) -> Option<SaleItem>
    decreases items.len(),
{
    if items.len() == 0 {
        None
    } else if items[0].id == id {
        Some(items[0])
    } else {
        item_at(items.drop_first(), id)
    }
}

pub open spec fn sale_id_taken(sales: Seq<SaleHeader>, id: u128) -> bool {
    exists|i: int| 0 <= i < sales.len() && #[trigger] sales[i].id == id
}

pub open spec fn item_id_taken(items: Seq<SaleItem>, id: u128) -> bool {
    exists|i: int| 0 <= i < items.len() && #[trigger] items[i].id == id
}

/// The keys of a new transaction are free: the header's is unused, and the
/// lines' are unused and pairwise distinct.
pub open spec fn keys_free(s: LedgerState, sid: u128, ids: Seq<u128>) -> bool {
    &&& !sale_id_taken(s.sales, sid)
    &&& forall|k: int| 0 <= k < ids.len() ==> !item_id_taken(s.items, #[trigger] ids[k])
    &&& forall|j: int, k: int| 0 <= j < k < ids.len() ==> ids[j] != ids[k]
}

pub open spec fn header_of(inp: SaleInput, id: u128) -> SaleHeader {
    SaleHeader {
        id,
        customer_id: inp.customer_id,
        date_and_time: inp.date_and_time,
        total_cents: inp.total_cents,
        discount: inp.discount,
        total_resolved: inp.total_resolved,
        sales_channel: inp.sales_channel,
        staff_responsible: inp.staff_responsible,
        company_branch: inp.company_branch,
        car_number: inp.car_number,
        receipt_number: inp.receipt_number,
    }
}

/// The lines of a new transaction as written, in the order given.
pub open spec fn created_lines(
    inputs: Seq<SaleItemInput>,
    ids: Seq<u128>,
    sid: u128,
    ps: Seq<Product>,
) -> Seq<SaleItem> {
    Seq::new(inputs.len(), |k: int| stored_line(inputs[k], ids[k], Some(sid), ps))
}

/// Writing a transaction as one unit: with free keys, the header and all its
/// lines are added and the transaction is read back; otherwise the store
/// refuses and nothing is added.
pub open spec fn create_outcome(s: LedgerState, inp: SaleInput, sid: u128, ids: Seq<u128>) -> (
    LedgerState,
    Result<SaleView, LedgerError>,
) {
    if keys_free(s, sid, ids) {
        let s2 = LedgerState {
            sales: s.sales.push(header_of(inp, sid)),
            items: s.items + created_lines(inp.sale_items@, ids, sid, s.products),
            ..s
        };
        (s2, Ok((header_of(inp, sid), lines_of(s2.items, s2.products, sid))))
    } else {
        (s, Err(LedgerError::Storage))
    }
}

/// A returned sale shows a header and its lines.
pub open spec fn shows(r: Result<Sale, LedgerError>, o: Result<SaleView, LedgerError>) -> bool {
    match (r, o) {
        (Ok(x), Ok(v)) => x.header() == v.0 && x.sale_items@ == v.1,
        (Err(e), Err(f)) => e == f,
        _ => false,
    }
}

/// Reading one transaction by the identifier of its header.
pub open spec fn get_outcome(s: LedgerState, id: u128) -> Result<SaleView, LedgerError> {
    match header_at(s.sales, id) {
        Some(h) => Ok((h, lines_of(s.items, s.products, id))),
        None => Err(LedgerError::NotFound),
    }
}

/// The lines that remain when those with an identifier are deleted.
pub open spec fn without_line(items: Seq<SaleItem>, id: u128) -> Seq<SaleItem>
    decreases items.len(),
{
    if items.len() == 0 {
        Seq::empty()
    } else {
        let rest = without_line(items.drop_last(), id);
        if items.last().id == id {
            rest
        } else {
            rest.push(items.last())
        }
    }
}

/// Deleting a line touches neither its header nor its sibling lines.
pub open spec fn delete_outcome(s: LedgerState, id: u128) -> (LedgerState, Result<(), LedgerError>) {
    if item_id_taken(s.items, id) {
        (LedgerState { items: without_line(s.items, id), ..s }, Ok(()))
    } else {
        (s, Err(LedgerError::NotFound))
    }
}

/// A single line written without a transaction; its key must be free.
pub open spec fn line_outcome(s: LedgerState, inp: SaleItemInput, id: u128) -> (
    LedgerState,
    Result<SaleItem, LedgerError>,
) {
    if item_id_taken(s.items, id) {
        (s, Err(LedgerError::Storage))
    } else {
        let line = stored_line(inp, id, inp.sale_id, s.products);
        (LedgerState { items: s.items.push(line), ..s }, Ok(resolved(line, s.products)))
    }
}

/// Rewriting the lines with an identifier from new values, with a fresh
/// snapshot; each keeps the header it belongs to.
pub open spec fn updated_items(items: Seq<SaleItem>, id: u128, inp: SaleItemInput, ps: Seq<Product>) -> Seq<
    SaleItem,
> {
    Seq::new(
        items.len(),
        |k: int|
            if items[k].id == id {
                stored_line(inp, id, items[k].sale_id, ps)
            } else {
                items[k]
            },
    )
}

pub open spec fn update_outcome(s: LedgerState, id: u128, inp: SaleItemInput) -> (
    LedgerState,
    Result<SaleItem, LedgerError>,
) {
    if item_id_taken(s.items, id) {
        let items2 = updated_items(s.items, id, inp, s.products);
        (
            LedgerState { items: items2, ..s },
            Ok(resolved(item_at(items2, id).unwrap(), s.products)),
        )
    } else {
        (s, Err(LedgerError::NotFound))
    }
}

/// A line that exists is found by the lookup.
pub proof fn lemma_item_at_found(items: Seq<SaleItem>, id: u128)
    requires
        item_id_taken(items, id),
    ensures
        item_at(items, id) is Some,
    decreases items.len(),
{
    if items[0].id != id {
        let j = choose|j: int| 0 <= j < items.len() && #[trigger] items[j].id == id;
        assert(items.drop_first()[j - 1].id == id);
        lemma_item_at_found(items.drop_first(), id);
    }
}

impl Ledger {
    pub fn new() -> (r: Ledger)
        ensures
            r@.products.len() == 0,
            r@.customers.len() == 0,
            r@.sales.len() == 0,
            r@.items.len() == 0,
    {
        Ledger { products: Vec::new(), customers: Vec::new(), sales: Vec::new(), items: Vec::new() }
    }

    /// Adds a product to the catalog.
    pub fn add_product(&mut self, p: Product)
        ensures
            final(self)@ == (LedgerState { products: old(self)@.products.push(p), ..old(self)@ }),
    {
        self.products.push(p);
    }

    /// Adds a customer.
    pub fn add_customer(&mut self, c: Customer)
        ensures
            final(self)@ == (LedgerState { customers: old(self)@.customers.push(c), ..old(self)@ }),
    {
        self.customers.push(c);
    }

    /// Position of the first product with an identifier.
    pub fn find_product(&self, id: u128) -> (r: Option<usize>)
        ensures
            r matches Some(i) ==> i < self.products@.len() && product_at(self.products@, id)
                == Some(self.products@[i as int]),
            r is None ==> product_at(self.products@, id) is None,
    {
        let ghost ps = self.products@;
        let mut i: usize = 0;
        assert(ps.subrange(0, ps.len() as int) =~= ps);
        while i < self.products.len()
            invariant
                i <= ps.len(),
                ps == self.products@,
                product_at(ps, id) == product_at(ps.subrange(i as int, ps.len() as int), id),
            decreases ps.len() - i,
        {
            if self.products[i].id == id {
                return Some(i);
            }
            assert(ps.subrange(i as int, ps.len() as int).drop_first() =~= ps.subrange(
                i as int + 1,
                ps.len() as int,
            ));
            i = i + 1;
        }
        None
    }

    /// The snapshot of a product to write on a line: its current name and
    /// price, or nothing where the product does not exist.
    pub fn snapshot_of(&self, product_id: u128) -> (r: (Option<String>, Option<i64>))
        ensures
            r.0 == name_of(self.products@, product_id),
            r.1 == price_of(self.products@, product_id),
    {
        match self.find_product(product_id) {
            Some(i) => (Some(self.products[i].name.clone()), Some(self.products[i].price_cents)),
            None => (None, None),
        }
    }

    /// A line as read, with the snapshot fallback applied.
    pub fn resolve_line(&self, line: &SaleItem) -> (r: SaleItem)
        ensures
            r == resolved(*line, self.products@),
    {
        let (name, price) = self.snapshot_of(line.product_id);
        SaleItem {
            id: line.id,
            sale_id: line.sale_id,
            product_id: line.product_id,
            customer_id: line.customer_id,
            date_of_sale: line.date_of_sale,
            quantity: line.quantity,
            discount: line.discount,
            total_cents: line.total_cents,
            total_resolved: line.total_resolved,
            note: copy_opt_string(&line.note),
            product_name: if line.product_name.is_some() {
                copy_opt_string(&line.product_name)
            } else {
                name
            },
            price_per_item: if line.price_per_item.is_some() {
                line.price_per_item
            } else {
                price
            },
        }
    }

    fn line_from_input(&self, inp: &SaleItemInput, id: u128, sale_id: Option<u128>) -> (r:
        SaleItem)
        ensures
            r == stored_line(*inp, id, sale_id, self.products@),
    {
        let (name, price) = self.snapshot_of(inp.product_id);
        SaleItem {
            id,
            sale_id,
            product_id: inp.product_id,
            customer_id: inp.customer_id,
            date_of_sale: inp.date_of_sale,
            quantity: inp.quantity,
            discount: inp.discount,
            total_cents: inp.total_cents,
            total_resolved: inp.total_resolved,
            note: copy_opt_string(&inp.note),
            product_name: name,
            price_per_item: price,
        }
    }

    /// The resolved lines of a header, read back from the store.
    pub fn lines_for(&self, sid: u128) -> (r: Vec<SaleItem>)
        ensures
            r@ == lines_of(self.items@, self.products@, sid),
    {
        let ghost items = self.items@;
        let mut out: Vec<SaleItem> = Vec::new();
        let mut i: usize = 0;
        while i < self.items.len()
            invariant
                i <= items.len(),
                items == self.items@,
                out@ == lines_of(items.subrange(0, i as int), self.products@, sid),
            decreases items.len() - i,
        {
            assert(items.subrange(0, i as int + 1).drop_last() =~= items.subrange(0, i as int));
            if self.items[i].sale_id == Some(sid) {
                let line = self.resolve_line(&self.items[i]);
                out.push(line);
            }
            i = i + 1;
        }
        assert(items.subrange(0, items.len() as int) =~= items);
        out
    }

    fn sale_id_free(&self, sid: u128) -> (r: bool)
        ensures
            r == !sale_id_taken(self.sales@, sid),
    {
        let mut i: usize = 0;
        while i < self.sales.len()
            invariant
                i <= self.sales@.len(),
                forall|j: int| 0 <= j < i ==> self.sales@[j].id != sid,
            decreases self.sales@.len() - i,
        {
            if self.sales[i].id == sid {
                return false;
            }
            i = i + 1;
        }
        true
    }

    fn item_id_free(&self, id: u128) -> (r: bool)
        ensures
            r == !item_id_taken(self.items@, id),
    {
        let mut i: usize = 0;
        while i < self.items.len()
            invariant
                i <= self.items@.len(),
                forall|j: int| 0 <= j < i ==> self.items@[j].id != id,
            decreases self.items@.len() - i,
        {
            if self.items[i].id == id {
                return false;
            }
            i = i + 1;
        }
        true
    }

    fn keys_are_free(&self, sid: u128, ids: &Vec<u128>) -> (r: bool)
        ensures
            r == keys_free(self@, sid, ids@),
    {
        if !self.sale_id_free(sid) {
            return false;
        }
        let mut k: usize = 0;
        while k < ids.len()
            invariant
                k <= ids@.len(),
                !sale_id_taken(self.sales@, sid),
                forall|m: int| 0 <= m < k ==> !item_id_taken(self.items@, #[trigger] ids@[m]),
                forall|j: int, m: int| 0 <= j < m < k ==> ids@[j] != ids@[m],
            decreases ids@.len() - k,
        {
            if !self.item_id_free(ids[k]) {
                return false;
            }
            let mut j: usize = 0;
            while j < k
                invariant
                    j <= k < ids@.len(),
                    forall|m: int| 0 <= m < j ==> ids@[m] != ids@[k as int],
                decreases k - j,
            {
                if ids[j] == ids[k] {
                    return false;
                }
                j = j + 1;
            }
            k = k + 1;
        }
        true
    }

    /// Records a sale with its lines as one unit, under the given keys. Each
    /// line gets the snapshot of its product; a line whose product does not
    /// exist is written without one. Where a key is taken the store refuses
    /// and nothing is written. The result is read back from the store.
    pub fn create_sales_transaction_with_ids(
        &mut self,
        input: &SaleInput,
        sale_id: u128,
        item_ids: &Vec<u128>,
    ) -> (r: Result<Sale, LedgerError>)
        requires
            item_ids@.len() == input.sale_items@.len(),
        ensures
            final(self)@ == create_outcome(old(self)@, *input, sale_id, item_ids@).0,
            shows(r, create_outcome(old(self)@, *input, sale_id, item_ids@).1),
    {
        if !self.keys_are_free(sale_id, item_ids) {
            return Err(LedgerError::Storage);
        }
        let ghost s0 = self@;
        let header = SaleHeader {
            id: sale_id,
            customer_id: input.customer_id,
            date_and_time: input.date_and_time,
            total_cents: input.total_cents,
            discount: input.discount,
            total_resolved: input.total_resolved,
            sales_channel: input.sales_channel,
            staff_responsible: input.staff_responsible,
            company_branch: input.company_branch.clone(),
            car_number: input.car_number.clone(),
            receipt_number: input.receipt_number.clone(),
        };
        let stored = header.duplicate();
        self.sales.push(stored);
        let n = input.sale_items.len();
        let mut k: usize = 0;
        while k < n
            invariant
                n == input.sale_items@.len(),
                n == item_ids@.len(),
                k <= n,
                self.products@ == s0.products,
                self.customers@ == s0.customers,
                self.sales@ == s0.sales.push(header),
                self.items@ == s0.items + created_lines(
                    input.sale_items@,
                    item_ids@,
                    sale_id,
                    s0.products,
                ).subrange(0, k as int),
            decreases n - k,
        {
            let line = self.line_from_input(&input.sale_items[k], item_ids[k], Some(sale_id));
            self.items.push(line);
            assert(created_lines(input.sale_items@, item_ids@, sale_id, s0.products).subrange(
                0,
                k as int + 1,
            ) =~= created_lines(input.sale_items@, item_ids@, sale_id, s0.products).subrange(
                0,
                k as int,
            ).push(line));
            k = k + 1;
        }
        assert(created_lines(input.sale_items@, item_ids@, sale_id, s0.products).subrange(
            0,
            n as int,
        ) =~= created_lines(input.sale_items@, item_ids@, sale_id, s0.products));
        let lines = self.lines_for(sale_id);
        Ok(Sale::assemble(header, lines))
    }

    /// Records a sale with its lines as one unit, under fresh random keys.
    /// Whatever keys came up, the ledger and the result are those of writing
    /// the transaction under them.
    pub fn create_sales_transaction(&mut self, input: &SaleInput) -> (r: Result<Sale, LedgerError>)
        ensures
            exists|sid: u128, ids: Seq<u128>|
                ids.len() == input.sale_items@.len() && final(self)@ == create_outcome(
                    old(self)@,
                    *input,
                    sid,
                    ids,
                ).0 && shows(r, create_outcome(old(self)@, *input, sid, ids).1),
    {
        let sid = fresh_id();
        let mut ids: Vec<u128> = Vec::new();
        let mut k: usize = 0;
        while k < input.sale_items.len()
            invariant
                k <= input.sale_items@.len(),
                ids@.len() == k,
            decreases input.sale_items@.len() - k,
        {
            ids.push(fresh_id());
            k = k + 1;
        }
        self.create_sales_transaction_with_ids(input, sid, &ids)
    }

    fn header_position(&self, id: u128) -> (r: Option<usize>)
        ensures
            r matches Some(i) ==> i < self.sales@.len() && header_at(self.sales@, id) == Some(
                self.sales@[i as int],
            ),
            r is None ==> header_at(self.sales@, id) is None,
    {
        let ghost hs = self.sales@;
        let mut i: usize = 0;
        assert(hs.subrange(0, hs.len() as int) =~= hs);
        while i < self.sales.len()
            invariant
                i <= hs.len(),
                hs == self.sales@,
                header_at(hs, id) == header_at(hs.subrange(i as int, hs.len() as int), id),
            decreases hs.len() - i,
        {
            if self.sales[i].id == id {
                return Some(i);
            }
            assert(hs.subrange(i as int, hs.len() as int).drop_first() =~= hs.subrange(
                i as int + 1,
                hs.len() as int,
            ));
            i = i + 1;
        }
        None
    }

    fn item_position(&self, id: u128) -> (r: Option<usize>)
        ensures
            r matches Some(i) ==> i < self.items@.len() && item_at(self.items@, id) == Some(
                self.items@[i as int],
            ),
            r is None ==> item_at(self.items@, id) is None,
    {
        let ghost its = self.items@;
        let mut i: usize = 0;
        assert(its.subrange(0, its.len() as int) =~= its);
        while i < self.items.len()
            invariant
                i <= its.len(),
                its == self.items@,
                item_at(its, id) == item_at(its.subrange(i as int, its.len() as int), id),
            decreases its.len() - i,
        {
            if self.items[i].id == id {
                return Some(i);
            }
            assert(its.subrange(i as int, its.len() as int).drop_first() =~= its.subrange(
                i as int + 1,
                its.len() as int,
            ));
            i = i + 1;
        }
        None
    }

    /// One transaction with its resolved lines, or not-found.
    pub fn get_sales_transaction(&self, id: u128) -> (r: Result<Sale, LedgerError>)
        ensures
            shows(r, get_outcome(self@, id)),
    {
        match self.header_position(id) {
            Some(i) => {
                let h = self.sales[i].duplicate();
                let lines = self.lines_for(id);
                Ok(Sale::assemble(h, lines))
            },
            None => Err(LedgerError::NotFound),
        }
    }

    /// One line, resolved, or not-found.
    pub fn get_sale(&self, id: u128) -> (r: Result<SaleItem, LedgerError>)
        ensures
            match item_at(self.items@, id) {
                Some(line) => r == Ok::<SaleItem, LedgerError>(resolved(line, self.products@)),
                None => r == Err::<SaleItem, LedgerError>(LedgerError::NotFound),
            },
    {
        match self.item_position(id) {
            Some(i) => Ok(self.resolve_line(&self.items[i])),
            None => Err(LedgerError::NotFound),
        }
    }
    /// Deletes the lines with an identifier. The header they belong to and
    /// their sibling lines stay as they are, and no header total is
    /// recomputed.
    pub fn delete_sale(&mut self, id: u128) -> (r: Result<(), LedgerError>)
        ensures
            final(self)@ == delete_outcome(old(self)@, id).0,
            r == delete_outcome(old(self)@, id).1,
    {
        let ghost items = self.items@;
        let mut kept: Vec<SaleItem> = Vec::new();
        let mut found = false;
        let mut i: usize = 0;
        while i < self.items.len()
            invariant
                i <= items.len(),
                items == self.items@,
                kept@ == without_line(items.subrange(0, i as int), id),
                found == exists|j: int| 0 <= j < i && #[trigger] items[j].id == id,
            decreases items.len() - i,
        {
            assert(items.subrange(0, i as int + 1).drop_last() =~= items.subrange(0, i as int));
            if self.items[i].id == id {
                found = true;
            } else {
                let line = self.items[i].duplicate();
                kept.push(line);
            }
            i = i + 1;
        }
        assert(items.subrange(0, items.len() as int) =~= items);
        if !found {
            return Err(LedgerError::NotFound);
        }
        self.items = kept;
        Ok(())
    }

    /// Writes a single line without a transaction, under the given key, with
    /// the snapshot of its product; a taken key is refused.
    pub fn create_sale_with_id(&mut self, input: &SaleItemInput, id: u128) -> (r: Result<
        SaleItem,
        LedgerError,
    >)
        ensures
            final(self)@ == line_outcome(old(self)@, *input, id).0,
            r == line_outcome(old(self)@, *input, id).1,
    {
        if !self.item_id_free(id) {
            return Err(LedgerError::Storage);
        }
        let line = self.line_from_input(input, id, input.sale_id);
        let shown = self.resolve_line(&line);
        self.items.push(line);
        Ok(shown)
    }

    /// Writes a single line without a transaction, under a fresh random key.
    pub fn create_sale(&mut self, input: &SaleItemInput) -> (r: Result<SaleItem, LedgerError>)
        ensures
            exists|id: u128|
                final(self)@ == line_outcome(old(self)@, *input, id).0 && r == line_outcome(
                    old(self)@,
                    *input,
                    id,
                ).1,
    {
        let id = fresh_id();
        self.create_sale_with_id(input, id)
    }

    /// Rewrites the lines with an identifier from new values, taking a fresh
    /// snapshot of the product; each keeps its header.
    pub fn update_sale(&mut self, id: u128, input: &SaleItemInput) -> (r: Result<
        SaleItem,
        LedgerError,
    >)
        ensures
            final(self)@ == update_outcome(old(self)@, id, *input).0,
            r == update_outcome(old(self)@, id, *input).1,
    {
        let ghost s0 = self@;
        if self.item_id_free(id) {
            return Err(LedgerError::NotFound);
        }
        let n = self.items.len();
        let mut i: usize = 0;
        while i < n
            invariant
                n == self.items@.len(),
                n == s0.items.len(),
                i <= n,
                self.products@ == s0.products,
                self.customers@ == s0.customers,
                self.sales@ == s0.sales,
                forall|k: int|
                    0 <= k < i ==> self.items@[k] == updated_items(
                        s0.items,
                        id,
                        *input,
                        s0.products,
                    )[k],
                forall|k: int| i <= k < n ==> self.items@[k] == s0.items[k],
            decreases n - i,
        {
            if self.items[i].id == id {
                let line = self.line_from_input(input, id, self.items[i].sale_id);
                self.items.set(i, line);
            }
            i = i + 1;
        }
        assert(self.items@ =~= updated_items(s0.items, id, *input, s0.products));
        proof {
            let j = choose|j: int| 0 <= j < s0.items.len() && #[trigger] s0.items[j].id == id;
            assert(self.items@[j].id == id);
            lemma_item_at_found(self.items@, id);
        }
        match self.item_position(id) {
            Some(j) => Ok(self.resolve_line(&self.items[j])),
            None => Err(LedgerError::NotFound),
        }
    }
    /// One transaction by an identifier given as text: a text that names no
    /// identifier is a malformed reference, told apart from not-found.
    pub fn get_sales_transaction_by_text(&self, id: &str) -> (r: Result<Sale, LedgerError>)
        ensures
            match uuid_of_text(id@) {
                Some(v) => shows(r, get_outcome(self@, v)),
                None => r == Err::<Sale, LedgerError>(LedgerError::MalformedReference),
            },
    {
        match parse_id(id) {
            Ok(v) => self.get_sales_transaction(v),
            Err(e) => Err(e),
        }
    }
}

} // verus!
