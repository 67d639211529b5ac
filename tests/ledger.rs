use pos_sales::dates::Timestamp;
use pos_sales::ledger::Ledger;
use pos_sales::models::{
    Customer, LedgerError, Product, ProductType, SaleInput, SaleItemInput, SalesChannel,
    SalesSearchParams, StatsRangeParams,
};

// 2024-01-01 (a Monday) counted from 1970-01-01.
const JAN_1_2024: i32 = 19723;

fn product(id: u128, name: &str, price: i64) -> Product {
    Product {
        id,
        name: name.to_string(),
        description: String::new(),
        price_cents: price,
        stock: 10,
        product_type: ProductType::PhysicalGood,
        details: vec![],
    }
}

fn line(product_id: u128, qty: i64, total: i64, day: i32) -> SaleItemInput {
    SaleItemInput {
        sale_id: None,
        product_id,
        customer_id: None,
        date_of_sale: Timestamp { day, second: 3600 },
        quantity: qty,
        discount: 0,
        total_cents: total,
        total_resolved: total,
        note: None,
    }
}

fn sale(lines: Vec<SaleItemInput>, total: i64, day: i32, second: u32) -> SaleInput {
    SaleInput {
        customer_id: None,
        date_and_time: Timestamp { day, second },
        sale_items: lines,
        total_cents: total,
        discount: 0,
        total_resolved: total,
        sales_channel: SalesChannel::Web,
        staff_responsible: 7,
        company_branch: "Main".to_string(),
        car_number: "GT-1".to_string(),
        receipt_number: "R-001".to_string(),
    }
}

fn catalog() -> Ledger {
    let mut l = Ledger::new();
    l.add_product(product(1, "Oil", 500));
    l.add_product(product(2, "Filter", 1200));
    l
}

fn range(start: &str, end: &str) -> StatsRangeParams {
    StatsRangeParams { start_date: Some(start.to_string()), end_date: Some(end.to_string()) }
}

fn search(page: Option<i64>, limit: Option<i64>) -> SalesSearchParams {
    SalesSearchParams {
        start_date: Some("2024-01-01".to_string()),
        end_date: Some("2024-01-31".to_string()),
        page,
        limit,
        query: None,
    }
}

#[test]
fn created_lines_carry_catalog_snapshots() {
    let mut l = catalog();
    let input = sale(vec![line(1, 2, 1000, JAN_1_2024), line(2, 1, 1200, JAN_1_2024)], 2200, JAN_1_2024, 0);
    let s = l.create_sales_transaction(&input).unwrap();
    assert_eq!(s.sale_items.len(), 2);
    assert_eq!(s.sale_items[0].product_name.as_deref(), Some("Oil"));
    assert_eq!(s.sale_items[0].price_per_item, Some(500));
    assert_eq!(s.sale_items[1].product_name.as_deref(), Some("Filter"));
    assert_eq!(s.sale_items[1].price_per_item, Some(1200));
    assert!(s.sale_items.iter().all(|i| i.sale_id == Some(s.id)));
    assert_eq!(l.sales.len(), 1);
    assert_eq!(l.items.len(), 2);
}

#[test]
fn missing_product_is_written_without_snapshot() {
    let mut l = catalog();
    let input = sale(vec![line(1, 1, 500, JAN_1_2024), line(99, 1, 300, JAN_1_2024)], 800, JAN_1_2024, 0);
    let s = l.create_sales_transaction_with_ids(&input, 100, &vec![200, 201]).unwrap();
    assert_eq!(s.sale_items.len(), 2);
    assert_eq!(s.sale_items[1].product_name, None);
    assert_eq!(s.sale_items[1].price_per_item, None);
    assert_eq!(s.sale_items[0].product_name.as_deref(), Some("Oil"));
    assert_eq!(l.sales.len(), 1);
    assert_eq!(l.items.len(), 2);
}

#[test]
fn failed_line_write_leaves_nothing() {
    let mut l = catalog();
    let first = sale(vec![line(1, 1, 500, JAN_1_2024)], 500, JAN_1_2024, 0);
    l.create_sales_transaction_with_ids(&first, 100, &vec![200]).unwrap();
    // the header key is free; the second line's key is taken
    let second = sale(vec![line(1, 1, 500, JAN_1_2024), line(2, 1, 1200, JAN_1_2024)], 1700, JAN_1_2024, 0);
    let r = l.create_sales_transaction_with_ids(&second, 101, &vec![300, 200]);
    assert_eq!(r.unwrap_err(), LedgerError::Storage);
    assert_eq!(l.sales.len(), 1);
    assert_eq!(l.items.len(), 1);
    assert_eq!(l.get_sales_transaction(101).unwrap_err(), LedgerError::NotFound);
}

#[test]
fn repeated_line_keys_are_refused() {
    let mut l = catalog();
    let input = sale(vec![line(1, 1, 500, JAN_1_2024), line(2, 1, 1200, JAN_1_2024)], 1700, JAN_1_2024, 0);
    let r = l.create_sales_transaction_with_ids(&input, 100, &vec![5, 5]);
    assert_eq!(r.unwrap_err(), LedgerError::Storage);
    assert!(l.sales.is_empty());
    assert!(l.items.is_empty());
}

#[test]
fn taken_header_key_is_refused() {
    let mut l = catalog();
    let input = sale(vec![line(1, 1, 500, JAN_1_2024)], 500, JAN_1_2024, 0);
    l.create_sales_transaction_with_ids(&input, 100, &vec![1]).unwrap();
    let r = l.create_sales_transaction_with_ids(&input, 100, &vec![2]);
    assert_eq!(r.unwrap_err(), LedgerError::Storage);
    assert_eq!(l.items.len(), 1);
}

#[test]
fn random_keys_differ() {
    let mut l = catalog();
    let input = sale(vec![line(1, 1, 500, JAN_1_2024)], 500, JAN_1_2024, 0);
    let a = l.create_sales_transaction(&input).unwrap();
    let b = l.create_sales_transaction(&input).unwrap();
    assert_ne!(a.id, b.id);
    assert_ne!(a.sale_items[0].id, b.sale_items[0].id);
}

#[test]
fn wednesday_week_has_three_buckets() {
    let mut l = catalog();
    let tuesday = JAN_1_2024 + 1;
    let wednesday = JAN_1_2024 + 2;
    l.create_sales_transaction(&sale(vec![line(1, 2, 1000, tuesday)], 1000, tuesday, 0)).unwrap();
    let week = l.get_weekly_sales_stats(wednesday).unwrap();
    assert_eq!(week.len(), 3);
    assert_eq!(week[0].date, "2024-01-01");
    assert_eq!(week[1].date, "2024-01-02");
    assert_eq!(week[2].date, "2024-01-03");
    assert_eq!((week[0].total_sales_cents, week[0].count), (0, 0));
    assert_eq!((week[1].total_sales_cents, week[1].count), (1000, 1));
    assert_eq!((week[2].total_sales_cents, week[2].count), (0, 0));
}

#[test]
fn empty_week_still_has_every_day() {
    let l = catalog();
    let sunday = JAN_1_2024 + 6;
    let week = l.get_weekly_sales_stats(sunday).unwrap();
    assert_eq!(week.len(), 7);
    assert!(week.iter().all(|d| d.total_sales_cents == 0 && d.count == 0));
    assert_eq!(week[6].date, "2024-01-07");
    let monday = l.get_weekly_sales_stats(JAN_1_2024).unwrap();
    assert_eq!(monday.len(), 1);
}

#[test]
fn top_products_of_quiet_window_is_empty() {
    let mut l = catalog();
    l.create_sales_transaction(&sale(vec![line(1, 1, 500, JAN_1_2024)], 500, JAN_1_2024, 0)).unwrap();
    let top = l.get_top_products(&range("2023-06-01", "2023-06-30"), JAN_1_2024).unwrap();
    assert!(top.is_empty());
    let by = l.get_sales_by_product(&range("2023-06-01", "2023-06-30"), JAN_1_2024).unwrap();
    assert!(by.is_empty());
}

#[test]
fn period_total_is_the_same_on_every_page() {
    let mut l = catalog();
    for k in 0..25 {
        let inp = line(1, 1, 100 + k, JAN_1_2024 + (k as i32 % 5));
        l.create_sale(&inp).unwrap();
    }
    let expected: i64 = (0..25).map(|k| 100 + k).sum();
    let first_page = l.list_sales(&search(Some(1), Some(20)), JAN_1_2024 + 10).unwrap();
    let second_page = l.list_sales(&search(Some(2), Some(20)), JAN_1_2024 + 10).unwrap();
    assert_eq!(first_page.sales.len(), 20);
    assert_eq!(second_page.sales.len(), 5);
    assert_eq!(first_page.total_sales_period_cents, expected);
    assert_eq!(second_page.total_sales_period_cents, expected);
    // latest first
    assert!(first_page.sales.windows(2).all(|w| w[0].date_of_sale.day >= w[1].date_of_sale.day));
    assert!(first_page.sales[19].date_of_sale.day >= second_page.sales[0].date_of_sale.day);
}

#[test]
fn round_trip_keeps_snapshot_after_catalog_change() {
    let mut l = catalog();
    let input = sale(vec![line(1, 2, 1000, JAN_1_2024), line(2, 1, 1200, JAN_1_2024)], 2200, JAN_1_2024, 0);
    let created = l.create_sales_transaction(&input).unwrap();
    l.products[0].price_cents = 650;
    l.products[0].name = "Premium Oil".to_string();
    l.products[1].price_cents = 9999;
    let back = l.get_sales_transaction(created.id).unwrap();
    assert_eq!(back.sale_items.len(), 2);
    assert_eq!(back.sale_items[0].total_cents, 1000);
    assert_eq!(back.sale_items[0].quantity, 2);
    assert_eq!(back.sale_items[0].product_name.as_deref(), Some("Oil"));
    assert_eq!(back.sale_items[0].price_per_item, Some(500));
    assert_eq!(back.sale_items[1].total_cents, 1200);
    assert_eq!(back.sale_items[1].product_name.as_deref(), Some("Filter"));
    assert_eq!(back.sale_items[1].price_per_item, Some(1200));
    assert_eq!(back.total_cents, 2200);
    assert_eq!(back.receipt_number, "R-001");
}

#[test]
fn line_without_snapshot_shows_current_product() {
    let mut l = catalog();
    let input = sale(vec![line(1, 1, 500, JAN_1_2024)], 500, JAN_1_2024, 0);
    let created = l.create_sales_transaction_with_ids(&input, 100, &vec![200]).unwrap();
    assert_eq!(created.sale_items[0].product_name.as_deref(), Some("Oil"));
    // a line stored before snapshots existed
    l.items[0].product_name = None;
    l.items[0].price_per_item = None;
    l.products[0].name = "Oil 5W".to_string();
    let back = l.get_sales_transaction(100).unwrap();
    assert_eq!(back.sale_items[0].product_name.as_deref(), Some("Oil 5W"));
    assert_eq!(back.sale_items[0].price_per_item, Some(500));
}

#[test]
fn deleting_a_line_keeps_header_and_siblings() {
    let mut l = catalog();
    let input = sale(vec![line(1, 2, 1000, JAN_1_2024), line(2, 1, 1200, JAN_1_2024)], 2200, JAN_1_2024, 0);
    l.create_sales_transaction_with_ids(&input, 100, &vec![200, 201]).unwrap();
    assert_eq!(l.delete_sale(200), Ok(()));
    let back = l.get_sales_transaction(100).unwrap();
    assert_eq!(back.sale_items.len(), 1);
    assert_eq!(back.sale_items[0].id, 201);
    assert_eq!(back.total_cents, 2200);
    assert_eq!(l.delete_sale(200), Err(LedgerError::NotFound));
}

#[test]
fn lookups_tell_malformed_from_missing() {
    let mut l = catalog();
    let input = sale(vec![line(1, 1, 500, JAN_1_2024)], 500, JAN_1_2024, 0);
    l.create_sales_transaction_with_ids(&input, 0x67e55044_10b1_426f_9247_bb680e5fe0c8, &vec![1]).unwrap();
    let found = l.get_sales_transaction_by_text("67e55044-10b1-426f-9247-bb680e5fe0c8").unwrap();
    assert_eq!(found.sale_items.len(), 1);
    assert_eq!(
        l.get_sales_transaction_by_text("00000000-0000-0000-0000-000000000001").unwrap_err(),
        LedgerError::NotFound
    );
    assert_eq!(l.get_sales_transaction_by_text("not-an-id").unwrap_err(), LedgerError::MalformedReference);
    assert_eq!(l.get_sale(42).unwrap_err(), LedgerError::NotFound);
}

#[test]
fn sums_that_overflow_are_store_failures() {
    let mut l = catalog();
    l.create_sale(&line(1, 1, i64::MAX, JAN_1_2024)).unwrap();
    l.create_sale(&line(1, 1, 1, JAN_1_2024)).unwrap();
    assert_eq!(l.list_sales(&search(None, None), JAN_1_2024).unwrap_err(), LedgerError::Storage);
    assert_eq!(l.get_today_sales(JAN_1_2024).unwrap_err(), LedgerError::Storage);
    assert_eq!(l.get_weekly_sales_stats(JAN_1_2024 + 1).unwrap_err(), LedgerError::Storage);
    assert_eq!(
        l.get_top_products(&range("2024-01-01", "2024-01-01"), JAN_1_2024).unwrap_err(),
        LedgerError::Storage
    );
}

#[test]
fn today_summary_counts_todays_lines() {
    let mut l = catalog();
    l.create_sale(&line(1, 1, 500, JAN_1_2024)).unwrap();
    l.create_sale(&line(2, 1, 1200, JAN_1_2024)).unwrap();
    l.create_sale(&line(2, 1, 1200, JAN_1_2024 + 1)).unwrap();
    let s = l.get_today_sales(JAN_1_2024).unwrap();
    assert_eq!((s.total_sales_cents, s.count), (1700, 2));
    let quiet = l.get_today_sales(JAN_1_2024 + 30).unwrap();
    assert_eq!((quiet.total_sales_cents, quiet.count), (0, 0));
}

#[test]
fn product_reports_group_by_current_name() {
    let mut l = catalog();
    l.add_product(product(3, "Oil", 700));
    l.create_sale(&line(1, 2, 1000, JAN_1_2024)).unwrap();
    l.create_sale(&line(2, 1, 1200, JAN_1_2024)).unwrap();
    l.create_sale(&line(3, 3, 2100, JAN_1_2024)).unwrap();
    l.create_sale(&line(99, 5, 9000, JAN_1_2024)).unwrap();
    let by = l.get_sales_by_product(&range("2024-01-01", "2024-01-31"), JAN_1_2024).unwrap();
    assert_eq!(by.len(), 2);
    assert_eq!(by[0].product_name, "Oil");
    assert_eq!((by[0].total_quantity, by[0].total_amount_cents), (5, 3100));
    assert_eq!(by[1].product_name, "Filter");
    assert_eq!((by[1].total_quantity, by[1].total_amount_cents), (1, 1200));
    let top = l.get_top_products(&range("2024-01-01", "2024-01-31"), JAN_1_2024).unwrap();
    assert_eq!(top.len(), 2);
    assert_eq!((top[0].product_name.as_str(), top[0].total_sales_cents), ("Oil", 3100));
}

#[test]
fn top_products_keeps_twenty() {
    let mut l = Ledger::new();
    for k in 0..25u128 {
        l.add_product(product(k, &format!("item-{}", k), 100));
        l.create_sale(&line(k, 1, 100 + k as i64, JAN_1_2024)).unwrap();
    }
    let top = l.get_top_products(&range("2024-01-01", "2024-01-01"), JAN_1_2024).unwrap();
    assert_eq!(top.len(), 20);
    assert_eq!(top[0].product_name, "item-24");
    assert_eq!(top[0].total_sales_cents, 124);
    assert_eq!(top[19].product_name, "item-5");
    let all = l.get_sales_by_product(&range("2024-01-01", "2024-01-01"), JAN_1_2024).unwrap();
    assert_eq!(all.len(), 25);
}

#[test]
fn transaction_list_filters_and_pages() {
    let mut l = catalog();
    l.add_customer(Customer {
        id: 9,
        first_name: "Ama".to_string(),
        last_name: "Mensah".to_string(),
        middle_name: None,
        mobile_number: String::new(),
        date_of_birth: 0,
        email: String::new(),
        details: vec![],
    });
    for k in 0..5 {
        let mut s = sale(vec![line(1, 1, 500, JAN_1_2024 + k)], 500, JAN_1_2024 + k, 0);
        s.receipt_number = format!("RCPT-{}", k);
        if k == 3 {
            s.customer_id = Some(9);
        }
        l.create_sales_transaction(&s).unwrap();
    }
    let all = l.list_sales_transactions(&SalesSearchParams {
        start_date: None,
        end_date: None,
        page: None,
        limit: None,
        query: None,
    });
    assert_eq!(all.len(), 5);
    assert_eq!(all[0].receipt_number, "RCPT-4");
    assert!(all.iter().all(|s| s.sale_items.is_empty()));
    let by_name = l.list_sales_transactions(&SalesSearchParams {
        start_date: None,
        end_date: None,
        page: None,
        limit: None,
        query: Some("mEnS".to_string()),
    });
    assert_eq!(by_name.len(), 1);
    assert_eq!(by_name[0].receipt_number, "RCPT-3");
    let by_receipt = l.list_sales_transactions(&SalesSearchParams {
        start_date: Some("2024-01-02".to_string()),
        end_date: Some("".to_string()),
        page: Some(2),
        limit: Some(2),
        query: Some("rcpt".to_string()),
    });
    assert_eq!(by_receipt.len(), 2);
    assert_eq!(by_receipt[0].receipt_number, "RCPT-2");
    assert_eq!(by_receipt[1].receipt_number, "RCPT-1");
    let bad_date = l.list_sales_transactions(&SalesSearchParams {
        start_date: Some("yesterday".to_string()),
        end_date: None,
        page: None,
        limit: None,
        query: None,
    });
    assert!(bad_date.is_empty());
}

#[test]
fn staff_transactions_are_all_of_one_staff_member() {
    let mut l = catalog();
    for k in 0..3 {
        let mut s = sale(vec![line(1, 1, 500, JAN_1_2024 + k)], 500, JAN_1_2024 + k, 0);
        s.staff_responsible = if k == 1 { 8 } else { 7 };
        l.create_sales_transaction(&s).unwrap();
    }
    let mine = l.get_staff_transactions(7, &range("2024-01-01", "2024-01-31"), JAN_1_2024);
    assert_eq!(mine.len(), 2);
    assert_eq!(mine[0].date_and_time.day, JAN_1_2024 + 2);
    assert_eq!(mine[1].date_and_time.day, JAN_1_2024);
    let defaults = l.get_staff_transactions(8, &StatsRangeParams { start_date: None, end_date: None }, JAN_1_2024 + 5);
    assert_eq!(defaults.len(), 1);
}

#[test]
fn legacy_line_update_takes_a_fresh_snapshot() {
    let mut l = catalog();
    let created = l.create_sale_with_id(&line(1, 1, 500, JAN_1_2024), 50).unwrap();
    assert_eq!(created.product_name.as_deref(), Some("Oil"));
    assert_eq!(l.create_sale_with_id(&line(1, 1, 500, JAN_1_2024), 50).unwrap_err(), LedgerError::Storage);
    l.products[1].price_cents = 1300;
    let updated = l.update_sale(50, &line(2, 4, 5200, JAN_1_2024)).unwrap();
    assert_eq!(updated.product_name.as_deref(), Some("Filter"));
    assert_eq!(updated.price_per_item, Some(1300));
    assert_eq!(updated.quantity, 4);
    assert_eq!(l.update_sale(51, &line(2, 4, 5200, JAN_1_2024)).unwrap_err(), LedgerError::NotFound);
}
