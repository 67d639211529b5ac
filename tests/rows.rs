use pos_sales::dates::Timestamp;
use pos_sales::models::{LedgerError, ProductType, SalesChannel};
use pos_sales::rows::{
    customer_from_row, product_from_row, sale_from_row, sale_item_from_row, CustomerColumns,
    ProductColumns, SaleColumns, SaleItemColumns,
};

const ID: &str = "67e55044-10b1-426f-9247-bb680e5fe0c8";
const ID_VALUE: u128 = 0x67e55044_10b1_426f_9247_bb680e5fe0c8;

fn item_row(sale_id: Option<&str>) -> SaleItemColumns {
    SaleItemColumns {
        id: ID.to_string(),
        sale_id: sale_id.map(|s| s.to_string()),
        product_id: "00000000-0000-0000-0000-000000000002".to_string(),
        customer_id: None,
        date_of_sale: Timestamp { day: 19723, second: 10 },
        quantity: 2,
        discount: 0,
        total_cents: 1000,
        total_resolved: 900,
        note: Some("gift".to_string()),
        product_name: None,
        price_per_item: Some(500),
    }
}

fn sale_row(channel: &str, staff: &str) -> SaleColumns {
    SaleColumns {
        id: ID.to_string(),
        customer_id: None,
        date_and_time: Timestamp { day: 19723, second: 10 },
        total_cents: 1000,
        discount: 100,
        total_resolved: 900,
        sales_channel: channel.to_string(),
        staff_responsible: staff.to_string(),
        company_branch: "Main".to_string(),
        car_number: "GT-1".to_string(),
        receipt_number: "R-9".to_string(),
    }
}

#[test]
fn product_rows_are_read() {
    let row = ProductColumns {
        id: ID.to_string(),
        name: "Oil".to_string(),
        description: "5W".to_string(),
        price_cents: 500,
        stock: 3,
        product_type: "service".to_string(),
    };
    let p = product_from_row(&row).unwrap();
    assert_eq!(p.id, ID_VALUE);
    assert_eq!(p.product_type, ProductType::Service);
    assert_eq!(p.name, "Oil");
    let bad_kind = ProductColumns { product_type: "gadget".to_string(), ..row };
    assert_eq!(product_from_row(&bad_kind).unwrap_err(), LedgerError::Storage);
    let bad_id = ProductColumns { id: "17".to_string(), ..bad_kind };
    assert_eq!(product_from_row(&bad_id).unwrap_err(), LedgerError::MalformedReference);
}

#[test]
fn customer_rows_are_read() {
    let row = CustomerColumns {
        id: ID.to_string(),
        first_name: "Ama".to_string(),
        last_name: "Mensah".to_string(),
        middle_name: None,
        mobile_number: "024".to_string(),
        date_of_birth: 7000,
        email: "ama@example.com".to_string(),
    };
    let c = customer_from_row(&row).unwrap();
    assert_eq!(c.id, ID_VALUE);
    assert_eq!(c.last_name, "Mensah");
    let bad = CustomerColumns { id: String::new(), ..row };
    assert_eq!(customer_from_row(&bad).unwrap_err(), LedgerError::MalformedReference);
}

#[test]
fn line_rows_are_read() {
    let line = sale_item_from_row(&item_row(Some(ID))).unwrap();
    assert_eq!(line.id, ID_VALUE);
    assert_eq!(line.sale_id, Some(ID_VALUE));
    assert_eq!(line.product_id, 2);
    assert_eq!(line.customer_id, None);
    assert_eq!(line.total_resolved, 900);
    assert_eq!(line.note.as_deref(), Some("gift"));
    let legacy = sale_item_from_row(&item_row(None)).unwrap();
    assert_eq!(legacy.sale_id, None);
    assert_eq!(
        sale_item_from_row(&item_row(Some("abc"))).unwrap_err(),
        LedgerError::MalformedReference
    );
}

#[test]
fn header_rows_are_read() {
    let h = sale_from_row(&sale_row("mobile", ID)).unwrap();
    assert_eq!(h.id, ID_VALUE);
    assert_eq!(h.sales_channel, SalesChannel::Mobile);
    assert_eq!(h.staff_responsible, ID_VALUE);
    assert_eq!(h.receipt_number, "R-9");
    assert_eq!(sale_from_row(&sale_row("phone", ID)).unwrap_err(), LedgerError::Storage);
    assert_eq!(
        sale_from_row(&sale_row("web", "staff-1")).unwrap_err(),
        LedgerError::MalformedReference
    );
}
