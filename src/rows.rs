use vstd::prelude::*;

use crate::dates::Timestamp;
use crate::ids::{parse_id, uuid_of_text};
use crate::models::{
    copy_opt_string, Customer, LedgerError, Product, ProductType, SaleHeader, SaleItem,
    SalesChannel,
};

verus! {

/// The columns of a stored product, identifiers and kind as text.
pub struct ProductColumns {
    pub id: String,
    pub name: String,
    pub description: String,
    pub price_cents: i64,
    pub stock: i64,
    pub product_type: String,
}

/// The columns of a stored customer, the identifier as text.
pub struct CustomerColumns {
    pub id: String,
    pub first_name: String,
    pub last_name: String,
    pub middle_name: Option<String>,
    pub mobile_number: String,
    pub date_of_birth: i32,
    pub email: String,
}

/// The columns of a stored line, identifiers as text.
pub struct SaleItemColumns {
    pub id: String,
    pub sale_id: Option<String>,
    pub product_id: String,
    pub customer_id: Option<String>,
    pub date_of_sale: Timestamp,
    pub quantity: i64,
    pub discount: i64,
    pub total_cents: i64,
    pub total_resolved: i64,
    pub note: Option<String>,
    pub product_name: Option<String>,
    pub price_per_item: Option<i64>,
}

/// The columns of a stored header, identifiers and channel as text.
pub struct SaleColumns {
    pub id: String,
    pub customer_id: Option<String>,
    pub date_and_time: Timestamp,
    pub total_cents: i64,
    pub discount: i64,
    pub total_resolved: i64,
    pub sales_channel: String,
    pub staff_responsible: String,
    pub company_branch: String,
    pub car_number: String,
    pub receipt_number: String,
}

/// An optional identifier column: `Some(None)` for an empty column,
/// `Some(Some(v))` for one that names `v`, `None` for one that names nothing.
pub open spec fn optional_id(text: Option<String>) -> Option<Option<u128>> {
    match text {
        Some(t) => match uuid_of_text(t@) {
            Some(v) => Some(Some(v)),
            None => None,
        },
        None => Some(None),
    }
}

fn read_optional_id(text: &Option<String>) -> (r: Result<Option<u128>, LedgerError>)
    ensures
        match optional_id(*text) {
            Some(v) => r == Ok::<Option<u128>, LedgerError>(v),
            None => r == Err::<Option<u128>, LedgerError>(LedgerError::MalformedReference),
        },
{
    match text {
        Some(t) => match parse_id(t.as_str()) {
            Ok(v) => Ok(Some(v)),
            Err(e) => Err(e),
        },
        None => Ok(None),
    }
}

/// A stored product; an identifier that names nothing is a malformed
/// reference, an unknown kind a store failure.
pub fn product_from_row(row: &ProductColumns) -> (r: Result<Product, LedgerError>)
    ensures
        uuid_of_text(row.id@) is None ==> r == Err::<Product, LedgerError>(
            LedgerError::MalformedReference,
        ),
        uuid_of_text(row.id@) is Some && ProductType::parse_spec(row.product_type@) is None ==> r
            == Err::<Product, LedgerError>(LedgerError::Storage),
        r matches Ok(p) ==> {
            &&& Some(p.id) == uuid_of_text(row.id@)
            &&& Some(p.product_type) == ProductType::parse_spec(row.product_type@)
            &&& p.name == row.name
            &&& p.description == row.description
            &&& p.price_cents == row.price_cents
            &&& p.stock == row.stock
            &&& p.details@.len() == 0
        },
        uuid_of_text(row.id@) is Some && ProductType::parse_spec(row.product_type@) is Some ==> r is Ok,
{
    let id = match parse_id(row.id.as_str()) {
        Ok(v) => v,
        Err(e) => return Err(e),
    };
    let kind = match ProductType::parse(row.product_type.as_str()) {
        Some(k) => k,
        None => return Err(LedgerError::Storage),
    };
    Ok(
        Product {
            id,
            name: row.name.clone(),
            description: row.description.clone(),
            price_cents: row.price_cents,
            stock: row.stock,
            product_type: kind,
            details: Vec::new(),
        },
    )
}

/// A stored customer; an identifier that names nothing is a malformed
/// reference.
pub fn customer_from_row(row: &CustomerColumns) -> (r: Result<Customer, LedgerError>)
    ensures
        uuid_of_text(row.id@) is None <==> r == Err::<Customer, LedgerError>(
            LedgerError::MalformedReference,
        ),
        r matches Ok(c) ==> {
            &&& Some(c.id) == uuid_of_text(row.id@)
            &&& c.first_name == row.first_name
            &&& c.last_name == row.last_name
            &&& c.middle_name == row.middle_name
            &&& c.mobile_number == row.mobile_number
            &&& c.date_of_birth == row.date_of_birth
            &&& c.email == row.email
            &&& c.details@.len() == 0
        },
{
    let id = match parse_id(row.id.as_str()) {
        Ok(v) => v,
        Err(e) => return Err(e),
    };
    Ok(
        Customer {
            id,
            first_name: row.first_name.clone(),
            last_name: row.last_name.clone(),
            middle_name: copy_opt_string(&row.middle_name),
            mobile_number: row.mobile_number.clone(),
            date_of_birth: row.date_of_birth,
            email: row.email.clone(),
            details: Vec::new(),
        },
    )
}

/// A stored line: every identifier column must name an identifier, else the
/// row is a malformed reference.
pub fn sale_item_from_row(row: &SaleItemColumns) -> (r: Result<SaleItem, LedgerError>)
    ensures
        match (
            uuid_of_text(row.id@),
            optional_id(row.sale_id),
            uuid_of_text(row.product_id@),
            optional_id(row.customer_id),
        ) {
            (Some(id), Some(sale_id), Some(product_id), Some(customer_id)) => r == Ok::<
                SaleItem,
                LedgerError,
            >(
                SaleItem {
                    id,
                    sale_id,
                    product_id,
                    customer_id,
                    date_of_sale: row.date_of_sale,
                    quantity: row.quantity,
                    discount: row.discount,
                    total_cents: row.total_cents,
                    total_resolved: row.total_resolved,
                    note: row.note,
                    product_name: row.product_name,
                    price_per_item: row.price_per_item,
                },
            ),
            _ => r == Err::<SaleItem, LedgerError>(LedgerError::MalformedReference),
        },
{
    let id = match parse_id(row.id.as_str()) {
        Ok(v) => v,
        Err(e) => return Err(e),
    };
    let sale_id = match read_optional_id(&row.sale_id) {
        Ok(v) => v,
        Err(e) => return Err(e),
    };
    let customer_id = match read_optional_id(&row.customer_id) {
        Ok(v) => v,
        Err(e) => return Err(e),
    };
    let product_id = match parse_id(row.product_id.as_str()) {
        Ok(v) => v,
        Err(e) => return Err(e),
    };
    Ok(
        SaleItem {
            id,
            sale_id,
            product_id,
            customer_id,
            date_of_sale: row.date_of_sale,
            quantity: row.quantity,
            discount: row.discount,
            total_cents: row.total_cents,
            total_resolved: row.total_resolved,
            note: copy_opt_string(&row.note),
            product_name: copy_opt_string(&row.product_name),
            price_per_item: row.price_per_item,
        },
    )
}

/// A stored header: identifier columns that name nothing are a malformed
/// reference, an unknown channel a store failure.
pub fn sale_from_row(row: &SaleColumns) -> (r: Result<SaleHeader, LedgerError>)
    ensures
        match (
            SalesChannel::parse_spec(row.sales_channel@),
            optional_id(row.customer_id),
            uuid_of_text(row.id@),
            uuid_of_text(row.staff_responsible@),
        ) {
            (None, _, _, _) => r == Err::<SaleHeader, LedgerError>(LedgerError::Storage),
            (Some(channel), Some(customer_id), Some(id), Some(staff)) => r == Ok::<
                SaleHeader,
                LedgerError,
            >(
                SaleHeader {
                    id,
                    customer_id,
                    date_and_time: row.date_and_time,
                    total_cents: row.total_cents,
                    discount: row.discount,
                    total_resolved: row.total_resolved,
                    sales_channel: channel,
                    staff_responsible: staff,
                    company_branch: row.company_branch,
                    car_number: row.car_number,
                    receipt_number: row.receipt_number,
                },
            ),
            _ => r == Err::<SaleHeader, LedgerError>(LedgerError::MalformedReference),
        },
{
    let channel = match SalesChannel::parse(row.sales_channel.as_str()) {
        Some(c) => c,
        None => return Err(LedgerError::Storage),
    };
    let customer_id = match read_optional_id(&row.customer_id) {
        Ok(v) => v,
        Err(e) => return Err(e),
    };
    let id = match parse_id(row.id.as_str()) {
        Ok(v) => v,
        Err(e) => return Err(e),
    };
    let staff = match parse_id(row.staff_responsible.as_str()) {
        Ok(v) => v,
        Err(e) => return Err(e),
    };
    Ok(
        SaleHeader {
            id,
            customer_id,
            date_and_time: row.date_and_time,
            total_cents: row.total_cents,
            discount: row.discount,
            total_resolved: row.total_resolved,
            sales_channel: channel,
            staff_responsible: staff,
            company_branch: row.company_branch.clone(),
            car_number: row.car_number.clone(),
            receipt_number: row.receipt_number.clone(),
        },
    )
}

} // verus!
