use swipe_server::database::models::{PagingParams, UsersFilterParams};
use swipe_server::database::models::parties::PartiesFilterParams;
use swipe_server::database::models_init::DEFAULT_PAGE_SIZE;

#[test]
fn default_paging_asks_twenty_rows_from_the_start() {
    let p = PagingParams::default();
    assert_eq!(p.limit, Some(20));
    assert_eq!(p.cursor, None);
    assert_eq!(p.get_limit(), 20);
    assert_eq!(p.get_cursor(), 0);
    assert_eq!(DEFAULT_PAGE_SIZE, 20);
}

#[test]
fn limit_defaults_when_absent() {
    assert_eq!(PagingParams { limit: None, cursor: None }.get_limit(), 20);
    assert_eq!(PagingParams { limit: Some(5), cursor: None }.get_limit(), 5);
    assert_eq!(PagingParams { limit: Some(-3), cursor: None }.get_limit(), -3);
}

#[test]
fn cursor_reads_decimal_or_zero() {
    let p = |c: &str| PagingParams { limit: None, cursor: Some(c.to_string()) };
    assert_eq!(p("1525000000").get_cursor(), 1525000000);
    assert_eq!(p("-5").get_cursor(), -5);
    assert_eq!(p("abc").get_cursor(), 0);
    assert_eq!(p("").get_cursor(), 0);
    assert_eq!(p("99999999999999999999").get_cursor(), 0);
}

#[test]
fn filters_default_to_no_filter() {
    let f = UsersFilterParams::default();
    assert!(f.uuid.is_none() && f.name.is_none() && f.active.is_none());
    let g = PartiesFilterParams::default();
    assert!(g.uuid.is_none() && g.title.is_none());
}
