use swipe_server::database::conn_handlers::parties::CreateParty;
use swipe_server::database::conn_handlers::users::CreateUser;
use swipe_server::database::models::parties::{NewParty, PartiesFilterParams, Party};
use swipe_server::database::models::{NewUser, PagingParams, User, UsersFilterParams};
use swipe_server::database::queries::parties::{
    found_party, parties_page, parties_query, update_failure as update_party_failure, PartyCreation,
};
use swipe_server::database::queries::users::{
    found_user, update_failure, users_page, users_query, UserCreation,
};
use swipe_server::database::queries::{fills_limit, next_cursor};
use swipe_server::database::queries::users::{after_update, AfterUpdate};
use swipe_server::database::queries::parties::{after_update as after_party_update, AfterUpdate as AfterPartyUpdate};
use swipe_server::graphql::resolvers::users::user_id_key;

fn user(id: i32, created_at: i64) -> User {
    User {
        id,
        uuid: format!("uuid-{}", id),
        name: format!("user {}", id),
        active: true,
        created_at,
        updated_at: created_at,
    }
}

fn party(id: i32, created_at: i64) -> Party {
    Party {
        id,
        uuid: format!("uuid-{}", id),
        title: format!("party {}", id),
        created_at,
        updated_at: created_at,
    }
}

fn is_v4_uuid_text(s: &str) -> bool {
    let c: Vec<char> = s.chars().collect();
    c.len() == 36
        && c.iter().enumerate().all(|(i, ch)| {
            if [8, 13, 18, 23].contains(&i) {
                *ch == '-'
            } else {
                ch.is_ascii_digit() || ('a'..='f').contains(ch)
            }
        })
        && c[14] == '4'
        && "89ab".contains(c[19])
}

#[test]
fn users_query_takes_filter_and_paging() {
    let filter = UsersFilterParams {
        uuid: Some("u".to_string()),
        name: None,
        active: Some(false),
    };
    let paging = PagingParams { limit: Some(7), cursor: Some("1000".to_string()) };
    let q = users_query(&filter, &paging);
    assert_eq!(q.uuid, Some("u".to_string()));
    assert_eq!(q.name, None);
    assert_eq!(q.active, Some(false));
    assert_eq!(q.created_after, 1000);
    assert_eq!(q.limit, 7);
}

#[test]
fn parties_query_takes_filter_and_paging() {
    let filter = PartiesFilterParams { uuid: None, title: Some("t".to_string()) };
    let q = parties_query(&filter, &PagingParams::default());
    assert_eq!(q.title, Some("t".to_string()));
    assert_eq!(q.uuid, None);
    assert_eq!(q.created_after, 0);
    assert_eq!(q.limit, 20);
}

#[test]
fn users_page_full_and_partial() {
    let full = users_page(vec![user(1, 10), user(2, 20)], 2);
    assert_eq!(full.items.len(), 2);
    assert_eq!(full.cursor, Some("20".to_string()));
    assert!(full.has_more);
    let partial = users_page(vec![user(1, 10)], 2);
    assert_eq!(partial.cursor, Some("10".to_string()));
    assert!(!partial.has_more);
    let empty = users_page(vec![], 0);
    assert_eq!(empty.cursor, None);
    assert!(empty.has_more);
    let empty2 = users_page(vec![], 20);
    assert!(!empty2.has_more);
}

#[test]
fn parties_page_cursor_is_last_creation_time() {
    let page = parties_page(vec![party(1, -5), party(2, 1525000000)], 20);
    assert_eq!(page.cursor, Some("1525000000".to_string()));
    assert!(!page.has_more);
    assert_eq!(page.items[1].id, 2);
}

#[test]
fn cursor_of_a_page_leads_to_the_next() {
    // the cursor handed out with a page, sent back, starts after its last row
    let page = users_page(vec![user(1, 100), user(2, 250)], 2);
    let next = PagingParams { limit: Some(2), cursor: page.cursor.clone() };
    assert_eq!(next.get_cursor(), 250);
    let q = users_query(&UsersFilterParams::default(), &next);
    assert_eq!(q.created_after, 250);
    let negative = users_page(vec![user(3, -42)], 2);
    let back = PagingParams { limit: None, cursor: negative.cursor };
    assert_eq!(back.get_cursor(), -42);
}

#[test]
fn next_cursor_and_fill() {
    assert_eq!(next_cursor(None), None);
    assert_eq!(next_cursor(Some(-1)), Some("-1".to_string()));
    assert!(fills_limit(3, 3));
    assert!(!fills_limit(3, -3));
}

#[test]
fn new_users_are_active_under_a_fresh_uuid() {
    let c = UserCreation::new(&NewUser { name: "ann".to_string(), active: false });
    assert!(is_v4_uuid_text(&c.uuid), "{}", c.uuid);
    let row = c.row();
    assert_eq!(row.uuid, c.uuid.as_str());
    assert_eq!(row.name, "ann");
    assert!(row.active);
    let other = UserCreation::new(&NewUser { name: "ann".to_string(), active: true });
    assert_ne!(other.uuid, c.uuid);
}

#[test]
fn generated_uuid_is_a_lookup_key() {
    let c = UserCreation::new(&NewUser { name: "bob".to_string(), active: true });
    let key = user_id_key(&c.uuid).expect("generated uuid parses");
    let digits: String = c.uuid.chars().filter(|ch| *ch != '-').collect();
    assert_eq!(key, u128::from_str_radix(&digits, 16).unwrap());
}

#[test]
fn new_parties_get_a_fresh_uuid() {
    let c = PartyCreation::new(&NewParty { title: "fest".to_string() });
    assert!(is_v4_uuid_text(&c.uuid));
    let row = c.row();
    assert_eq!(row.title, "fest");
    assert_eq!(row.uuid, c.uuid.as_str());
}

#[test]
fn found_is_the_last_row() {
    match found_user(vec![user(1, 1), user(2, 2)]) {
        Ok(u) => assert_eq!(u.id, 2),
        Err(_) => panic!("expected a user"),
    }
    match found_user(vec![]) {
        Ok(_) => panic!("expected an error"),
        Err(e) => assert_eq!(e, "No user found"),
    }
    match found_party(vec![]) {
        Ok(_) => panic!("expected an error"),
        Err(e) => assert_eq!(e, "No party found"),
    }
    match found_party(vec![party(9, 1)]) {
        Ok(p) => assert_eq!(p.id, 9),
        Err(_) => panic!("expected a party"),
    }
}

#[test]
fn update_failures_name_the_reason() {
    assert_eq!(update_failure("boom"), "Unable to update user boom");
    assert_eq!(update_party_failure("gone"), "Unable to update party gone");
}

#[test]
fn create_messages_build_new_rows() {
    let u = CreateUser { name: "cy".to_string() }.new_user();
    assert_eq!(u.name, "cy");
    assert!(u.active);
    let p = CreateParty { title: "gala".to_string() }.new_party();
    assert_eq!(p.title, "gala");
}

#[test]
fn after_an_update_comes_a_lookup_or_the_error() {
    match after_update("abc", Ok(0)) {
        AfterUpdate::Find(u) => assert_eq!(u, "abc"),
        AfterUpdate::Fail(_) => panic!("expected a lookup"),
    }
    match after_update("abc", Err("no connection".to_string())) {
        AfterUpdate::Fail(m) => assert_eq!(m, "Unable to update user no connection"),
        AfterUpdate::Find(_) => panic!("expected a failure"),
    }
    match after_party_update("p", Err("x".to_string())) {
        AfterPartyUpdate::Fail(m) => assert_eq!(m, "Unable to update party x"),
        AfterPartyUpdate::Find(_) => panic!("expected a failure"),
    }
}

#[test]
fn short_page_means_no_next_page() {
    // one row where five fit: the page ends the listing
    let page = users_page(vec![user(1, 10)], 5);
    assert!(!page.has_more);
    // a full page may be followed by another
    let full = users_page(vec![user(1, 10), user(2, 10)], 2);
    assert!(full.has_more);
    assert_eq!(full.cursor, Some("10".to_string()));
}
