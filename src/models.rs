use vstd::prelude::*;

use crate::dates::Timestamp;

verus! {

/// Kind of a catalog product.
#[derive(Clone, Copy, Debug, PartialEq, Eq, Structural)]
pub enum ProductType {
    PhysicalGood,
    Service,
}

impl ProductType {
    /// The stored name of the kind.
    pub open spec fn spec_name(self) -> Seq<char> {
        match self {
            ProductType::PhysicalGood => "physical_good"@,
            ProductType::Service => "service"@,
        }
    }

    pub fn as_str(&self) -> (r: &'static str)
        ensures
            r@ == self.spec_name(),
    {
        match self {
            ProductType::PhysicalGood => "physical_good",
            ProductType::Service => "service",
        }
    }

    /// The kind that a stored name stands for.
    pub open spec fn parse_spec(s: Seq<char>) -> Option<ProductType> {
        if s == "physical_good"@ {
            Some(ProductType::PhysicalGood)
        } else if s == "service"@ {
            Some(ProductType::Service)
        } else {
            None
        }
    }

    /// Reads a stored kind name; any other text is refused.
    pub fn parse(s: &str) -> (r: Option<ProductType>)
        ensures
            r == ProductType::parse_spec(s@),
    {
        let owned = s.to_owned();
        if owned == "physical_good".to_owned() {
            Some(ProductType::PhysicalGood)
        } else if owned == "service".to_owned() {
            Some(ProductType::Service)
        } else {
            None
        }
    }
}

/// Channel through which a sale was made.
#[derive(Clone, Copy, Debug, PartialEq, Eq, Structural)]
pub enum SalesChannel {
    Mobile,
    Web,
}

impl SalesChannel {
    /// The stored name of the channel.
    pub open spec fn spec_name(self) -> Seq<char> {
        match self {
            SalesChannel::Mobile => "mobile"@,
            SalesChannel::Web => "web"@,
        }
    }

    pub fn as_str(&self) -> (r: &'static str)
        ensures
            r@ == self.spec_name(),
    {
        match self {
            SalesChannel::Mobile => "mobile",
            SalesChannel::Web => "web",
        }
    }

    /// The channel that a stored name stands for.
    pub open spec fn parse_spec(s: Seq<char>) -> Option<SalesChannel> {
        if s == "mobile"@ {
            Some(SalesChannel::Mobile)
        } else if s == "web"@ {
            Some(SalesChannel::Web)
        } else {
            None
        }
    }

    /// Reads a stored channel name; any other text is refused.
    pub fn parse(s: &str) -> (r: Option<SalesChannel>)
        ensures
            r == SalesChannel::parse_spec(s@),
    {
        let owned = s.to_owned();
        if owned == "mobile".to_owned() {
            Some(SalesChannel::Mobile)
        } else if owned == "web".to_owned() {
            Some(SalesChannel::Web)
        } else {
            None
        }
    }
}

} // verus!

verus! {

/// Why a ledger operation failed.
#[derive(Clone, Copy, Debug, PartialEq, Eq, Structural)]
pub enum LedgerError {
    /// The referenced header or line does not exist.
    NotFound,
    /// The store failed: a key taken twice, a sum that does not fit its
    /// column, or a stored value that it cannot read.
    Storage,
    /// An identifier text that names no identifier.
    MalformedReference,
}

} // verus!

verus! {

/// A catalog product. Identifiers are 128-bit UUID values.
#[derive(Clone, Debug)]
pub struct Product {
    pub id: u128,
    pub name: String,
    pub description: String,
    pub price_cents: i64,
    pub stock: i64,
    pub product_type: ProductType,
    pub details: Vec<ProductDetails>,
}

#[derive(Clone, Debug)]
pub struct ProductInput {
    pub name: String,
    pub description: String,
    pub price_cents: i64,
    pub stock: i64,
    pub product_type: ProductType,
    pub details: Vec<ProductDetailsInput>,
}

#[derive(Clone, Debug)]
pub struct ProductDetails {
    pub product_id: u128,
    pub detail_name: String,
    pub detail_value: String,
}

#[derive(Clone, Debug)]
pub struct ProductDetailsInput {
    pub detail_name: String,
    pub detail_value: String,
}

/// A customer; the date of birth is a day counted from 1970-01-01.
#[derive(Clone, Debug)]
pub struct Customer {
    pub id: u128,
    pub first_name: String,
    pub last_name: String,
    pub middle_name: Option<String>,
    pub mobile_number: String,
    pub date_of_birth: i32,
    pub email: String,
    pub details: Vec<CustomerDetails>,
}

#[derive(Clone, Debug)]
pub struct CustomerInput {
    pub first_name: String,
    pub last_name: String,
    pub middle_name: Option<String>,
    pub mobile_number: String,
    pub date_of_birth: i32,
    pub email: String,
    pub details: Vec<CustomerDetailsInput>,
}

#[derive(Clone, Debug)]
pub struct CustomerDetails {
    pub customer_id: u128,
    pub detail_name: String,
    pub detail_value: String,
}

#[derive(Clone, Debug)]
pub struct CustomerDetailsInput {
    pub detail_name: String,
    pub detail_value: String,
}

#[derive(Clone, Debug)]
pub struct UploadResponse {
    pub url: String,
}

/// One line of a sale. `product_name` and `price_per_item` are the snapshot
/// of the product taken when the line was written.
#[derive(Clone, Debug)]
pub struct SaleItem {
    pub id: u128,
    pub sale_id: Option<u128>,
    pub product_id: u128,
    pub customer_id: Option<u128>,
    pub date_of_sale: Timestamp,
    pub quantity: i64,
    pub discount: i64,
    pub total_cents: i64,
    pub total_resolved: i64,
    pub note: Option<String>,
    pub product_name: Option<String>,
    pub price_per_item: Option<i64>,
}

#[derive(Clone, Debug)]
pub struct SaleItemInput {
    pub sale_id: Option<u128>,
    pub product_id: u128,
    pub customer_id: Option<u128>,
    pub date_of_sale: Timestamp,
    pub quantity: i64,
    pub discount: i64,
    pub total_cents: i64,
    pub total_resolved: i64,
    pub note: Option<String>,
}

/// The header of a sale as the ledger stores it, without its lines.
#[derive(Clone, Debug)]
pub struct SaleHeader {
    pub id: u128,
    pub customer_id: Option<u128>,
    pub date_and_time: Timestamp,
    pub total_cents: i64,
    pub discount: i64,
    pub total_resolved: i64,
    pub sales_channel: SalesChannel,
    pub staff_responsible: u128,
    pub company_branch: String,
    pub car_number: String,
    pub receipt_number: String,
}

/// A sale: its header and its lines.
#[derive(Clone, Debug)]
pub struct Sale {
    pub id: u128,
    pub customer_id: Option<u128>,
    pub date_and_time: Timestamp,
    pub sale_items: Vec<SaleItem>,
    pub total_cents: i64,
    pub discount: i64,
    pub total_resolved: i64,
    pub sales_channel: SalesChannel,
    pub staff_responsible: u128,
    pub company_branch: String,
    pub car_number: String,
    pub receipt_number: String,
}

#[derive(Clone, Debug)]
pub struct SaleInput {
    pub customer_id: Option<u128>,
    pub date_and_time: Timestamp,
    pub sale_items: Vec<SaleItemInput>,
    pub total_cents: i64,
    pub discount: i64,
    pub total_resolved: i64,
    pub sales_channel: SalesChannel,
    pub staff_responsible: u128,
    pub company_branch: String,
    pub car_number: String,
    pub receipt_number: String,
}

#[derive(Clone, Debug)]
pub struct Staff {
    pub id: u128,
    pub first_name: String,
    pub last_name: String,
    pub mobile_number: String,
    pub photo_link: String,
    pub staff_id: String,
    pub username: String,
    pub password_hash: String,
}

#[derive(Clone, Debug)]
pub struct StaffInput {
    pub id: Option<u128>,
    pub first_name: String,
    pub last_name: String,
    pub mobile_number: String,
    pub photo_link: String,
    pub staff_id: String,
    pub username: String,
    pub password: Option<String>,
}

#[derive(Clone, Copy, Debug, PartialEq, Eq, Structural)]
pub struct SalesStats {
    pub total_sales_cents: i64,
    pub count: i64,
}

/// Revenue of one day; `date` is `YYYY-MM-DD`.
#[derive(Clone, Debug)]
pub struct DailySales {
    pub date: String,
    pub total_sales_cents: i64,
    pub count: i64,
}

#[derive(Clone, Debug)]
pub struct SalesItemsListResponse {
    pub sales: Vec<SaleItem>,
    pub total_sales_period_cents: i64,
}

#[derive(Clone, Debug)]
pub struct TopProduct {
    pub product_name: String,
    pub total_sales_cents: i64,
}

#[derive(Clone, Debug)]
pub struct ProductSalesSummary {
    pub product_name: String,
    pub total_quantity: i64,
    pub total_amount_cents: i64,
}

/// Filters of the transaction list and of the flat line list.
#[derive(Clone, Debug)]
pub struct SalesSearchParams {
    pub start_date: Option<String>,
    pub end_date: Option<String>,
    pub page: Option<i64>,
    pub limit: Option<i64>,
    pub query: Option<String>,
}

#[derive(Clone, Debug)]
pub struct SearchParams {
    pub search: Option<String>,
}

/// An optional reporting window; see `resolve_date_range`.
#[derive(Clone, Debug)]
pub struct StatsRangeParams {
    pub start_date: Option<String>,
    pub end_date: Option<String>,
}

#[derive(Clone, Debug)]
pub struct AuthRequest {
    pub username: String,
    pub password: String,
}

#[derive(Clone, Debug)]
pub struct AuthResponse {
    pub token: String,
    pub token_type: String,
    pub expires_in: u64,
}

#[derive(Clone, Debug)]
pub struct FileUpload {
    pub file: Vec<u8>,
}

/// The authenticated identity: the staff member and the expiry time.
#[derive(Clone, Debug)]
pub struct Claims {
    pub sub: String,
    pub exp: usize,
}

pub fn copy_opt_string(o: &Option<String>) -> (r: Option<String>)
    ensures
        r == *o,
{
    match o {
        Some(s) => Some(s.clone()),
        None => None,
    }
}

impl SaleHeader {
    pub fn duplicate(&self) -> (r: SaleHeader)
        ensures
            r == *self,
    {
        SaleHeader {
            id: self.id,
            customer_id: self.customer_id,
            date_and_time: self.date_and_time,
            total_cents: self.total_cents,
            discount: self.discount,
            total_resolved: self.total_resolved,
            sales_channel: self.sales_channel,
            staff_responsible: self.staff_responsible,
            company_branch: self.company_branch.clone(),
            car_number: self.car_number.clone(),
            receipt_number: self.receipt_number.clone(),
        }
    }
}

impl SaleItem {
    pub fn duplicate(&self) -> (r: SaleItem)
        ensures
            r == *self,
    {
        SaleItem {
            id: self.id,
            sale_id: self.sale_id,
            product_id: self.product_id,
            customer_id: self.customer_id,
            date_of_sale: self.date_of_sale,
            quantity: self.quantity,
            discount: self.discount,
            total_cents: self.total_cents,
            total_resolved: self.total_resolved,
            note: copy_opt_string(&self.note),
            product_name: copy_opt_string(&self.product_name),
            price_per_item: self.price_per_item,
        }
    }
}

impl Sale {
    /// The header part of a sale.
    pub open spec fn header(self) -> SaleHeader {
        SaleHeader {
            id: self.id,
            customer_id: self.customer_id,
            date_and_time: self.date_and_time,
            total_cents: self.total_cents,
            discount: self.discount,
            total_resolved: self.total_resolved,
            sales_channel: self.sales_channel,
            staff_responsible: self.staff_responsible,
            company_branch: self.company_branch,
            car_number: self.car_number,
            receipt_number: self.receipt_number,
        }
    }

    /// A sale made of a header and lines.
    pub fn assemble(h: SaleHeader, lines: Vec<SaleItem>) -> (r: Sale)
        ensures
            r.header() == h,
            r.sale_items@ == lines@,
    {
        Sale {
            id: h.id,
            customer_id: h.customer_id,
            date_and_time: h.date_and_time,
            sale_items: lines,
            total_cents: h.total_cents,
            discount: h.discount,
            total_resolved: h.total_resolved,
            sales_channel: h.sales_channel,
            staff_responsible: h.staff_responsible,
            company_branch: h.company_branch,
            car_number: h.car_number,
            receipt_number: h.receipt_number,
        }
    }
}

} // verus!
