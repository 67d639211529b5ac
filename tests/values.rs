use pos_sales::auth::extract_bearer_token;
use pos_sales::dates::{days_since_monday, resolve_date_range, window_bounds};
use pos_sales::ids::parse_id;
use pos_sales::listing::{order_desc, page_range};
use pos_sales::models::{LedgerError, ProductType, SalesChannel};
use pos_sales::search::contains_ignoring_case;

#[test]
fn days_are_written_as_iso_dates() {
    assert_eq!(resolve_date_range(None, None, 0).1, "1970-01-01");
    assert_eq!(resolve_date_range(None, None, 19725).1, "2024-01-03");
    assert_eq!(resolve_date_range(None, None, -719162).1, "0001-01-01");
    assert_eq!(resolve_date_range(None, None, 2932896).1, "9999-12-31");
    assert_eq!(resolve_date_range(None, None, 2932896).0, "9999-12-01");
}

#[test]
fn window_bounds_read_iso_dates() {
    assert_eq!(window_bounds("2024-01-03", "1970-01-01"), Some((19725, 0)));
    assert_eq!(window_bounds("03-01-2024", "2024-01-03"), None);
    assert_eq!(window_bounds("2024-01-03", ""), None);
}

#[test]
fn weekday_counts_from_monday() {
    assert_eq!(days_since_monday(19723), 0);
    assert_eq!(days_since_monday(19725), 2);
    assert_eq!(days_since_monday(0), 3);
    assert_eq!(days_since_monday(-719162), 0);
}

#[test]
fn date_range_defaults_to_month_so_far() {
    // 2024-02-15
    let (s, e) = resolve_date_range(None, Some(String::new()), 19768);
    assert_eq!(s, "2024-02-01");
    assert_eq!(e, "2024-02-15");
    let (s, e) = resolve_date_range(Some("2023-01-01".to_string()), Some("bad".to_string()), 19768);
    assert_eq!(s, "2023-01-01");
    assert_eq!(e, "bad");
}

#[test]
fn ids_parse_from_text() {
    assert_eq!(parse_id("67e55044-10b1-426f-9247-bb680e5fe0c8"), Ok(0x67e55044_10b1_426f_9247_bb680e5fe0c8));
    assert_eq!(parse_id("67e5504410b1426f9247bb680e5fe0c8"), Ok(0x67e55044_10b1_426f_9247_bb680e5fe0c8));
    assert_eq!(parse_id("xyz"), Err(LedgerError::MalformedReference));
}

#[test]
fn pages_are_cut_from_the_offset() {
    assert_eq!(page_range(45, 1, 20), (0, 20));
    assert_eq!(page_range(45, 3, 20), (40, 45));
    assert_eq!(page_range(45, 4, 20), (45, 45));
    assert_eq!(page_range(45, 0, 20), (0, 20));
    assert_eq!(page_range(45, 2, -1), (0, 45));
    assert_eq!(page_range(45, i64::MAX, i64::MAX), (45, 45));
}

#[test]
fn order_runs_from_latest_keeping_ties() {
    assert_eq!(order_desc(&vec![5, 9, 5, 1, 9]), vec![1, 4, 0, 2, 3]);
    assert_eq!(order_desc(&vec![]), Vec::<usize>::new());
}

#[test]
fn search_ignores_ascii_case() {
    assert!(contains_ignoring_case("Mensah", "ENS"));
    assert!(contains_ignoring_case("abc", ""));
    assert!(!contains_ignoring_case("abc", "abcd"));
    assert!(!contains_ignoring_case("Mensah", "x"));
}

#[test]
fn kind_and_channel_names() {
    assert_eq!(ProductType::PhysicalGood.as_str(), "physical_good");
    assert_eq!(ProductType::parse("service"), Some(ProductType::Service));
    assert_eq!(ProductType::parse("Service"), None);
    assert_eq!(SalesChannel::Mobile.as_str(), "mobile");
    assert_eq!(SalesChannel::parse("web"), Some(SalesChannel::Web));
    assert_eq!(SalesChannel::parse(""), None);
}

#[test]
fn bearer_token_is_taken_from_the_header() {
    assert_eq!(extract_bearer_token("Bearer abc.def"), Some("abc.def".to_string()));
    assert_eq!(extract_bearer_token("Bearer "), None);
    assert_eq!(extract_bearer_token("bearer abc"), None);
    assert_eq!(extract_bearer_token("Basic abc"), None);
    assert_eq!(extract_bearer_token(""), None);
}
