use swipe_server::database::models::{DBQueryResult, PagingParams, User, UsersFilterParams};
use swipe_server::graphql::executor::{executor_capacity, graphql_reply, GraphQLReply};
use swipe_server::graphql::resolvers::users::{first_user, user_id_key, user_id_text};
use swipe_server::database::queries::{timestamp_representable, MAX_DATETIME_TIMESTAMP, MIN_DATETIME_TIMESTAMP};
use swipe_server::graphql::types::QueryRoot;

fn user(id: i32) -> User {
    User { id, uuid: String::new(), name: String::new(), active: false, created_at: 0, updated_at: 0 }
}

#[test]
fn users_field_defaults() {
    let q = QueryRoot::users_query(None, None);
    assert_eq!(q.limit, 20);
    assert_eq!(q.created_after, 0);
    assert!(q.active.is_none() && q.uuid.is_none() && q.name.is_none());
    let f = UsersFilterParams { uuid: None, name: Some("n".to_string()), active: None };
    let p = PagingParams { limit: None, cursor: Some("77".to_string()) };
    let q = QueryRoot::users_query(Some(f), Some(p));
    assert_eq!(q.name, Some("n".to_string()));
    assert_eq!(q.created_after, 77);
    assert_eq!(q.limit, 20);
}

#[test]
fn users_field_connection() {
    let res = DBQueryResult { items: vec![user(1), user(2)], cursor: Some("9".to_string()), has_more: true };
    let c = QueryRoot::user_connection(res);
    assert_eq!(c.edges.len(), 2);
    assert_eq!(c.edges[1].id, 2);
    assert_eq!(c.cursor, Some("9".to_string()));
    assert!(c.page_info.has_next_page);
    assert!(c.page_info.start_cursor.is_none() && c.page_info.end_cursor.is_none());
}

#[test]
fn graphql_replies() {
    assert!(matches!(graphql_reply::<()>(Ok("{}".to_string())), GraphQLReply::Json(b) if b == "{}"));
    assert!(matches!(graphql_reply::<String>(Err("x".to_string())), GraphQLReply::InternalServerError));
}

#[test]
fn capacity_is_half_the_processors() {
    assert_eq!(executor_capacity(8), 4);
    assert_eq!(executor_capacity(3), 1);
    assert_eq!(executor_capacity(1), 0);
}

#[test]
fn uuid_keys_in_every_form() {
    let value = 0x67e5504410b1426f9247bb680e5fe0c8u128;
    assert_eq!(user_id_key("67e55044-10b1-426f-9247-bb680e5fe0c8"), Some(value));
    assert_eq!(user_id_key("67E55044-10B1-426F-9247-BB680E5FE0C8"), Some(value));
    assert_eq!(user_id_key("67e5504410b1426f9247bb680e5fe0c8"), Some(value));
    assert_eq!(user_id_key("{67e55044-10b1-426f-9247-bb680e5fe0c8}"), Some(value));
    assert_eq!(user_id_key("urn:uuid:67e55044-10b1-426f-9247-bb680e5fe0c8"), Some(value));
    assert_eq!(user_id_key("URN:UUID:67e55044-10b1-426f-9247-bb680e5fe0c8"), Some(value));
}

#[test]
fn non_uuid_keys_are_refused() {
    assert_eq!(user_id_key(""), None);
    assert_eq!(user_id_key("42"), None);
    assert_eq!(user_id_key("67e55044-10b1-426f-9247-bb680e5fe0c"), None);
    assert_eq!(user_id_key("67e55044+10b1-426f-9247-bb680e5fe0c8"), None);
    assert_eq!(user_id_key("g7e55044-10b1-426f-9247-bb680e5fe0c8"), None);
    assert_eq!(user_id_key("[67e55044-10b1-426f-9247-bb680e5fe0c8]"), None);
    assert_eq!(user_id_key("urx:uuid:67e55044-10b1-426f-9247-bb680e5fe0c8"), None);
    assert_eq!(user_id_key("67e55044-10b1426f-9247-bb680e5fe0c8"), None);
}

#[test]
fn lookup_takes_the_first_row() {
    assert_eq!(first_user(vec![user(4), user(5)]).map(|u| u.id), Some(4));
    assert!(first_user(vec![]).is_none());
}

#[test]
fn uuid_text_reads_back_as_its_key() {
    let key = 0x67e5504410b1426f9247bb680e5fe0c8u128;
    assert_eq!(user_id_text(key), "67e55044-10b1-426f-9247-bb680e5fe0c8");
    assert_eq!(user_id_key(&user_id_text(key)), Some(key));
    assert_eq!(user_id_text(0), "00000000-0000-0000-0000-000000000000");
    assert_eq!(user_id_key(&user_id_text(u128::MAX)), Some(u128::MAX));
}

#[test]
fn cursors_need_a_date_time() {
    for secs in [MIN_DATETIME_TIMESTAMP - 1, MIN_DATETIME_TIMESTAMP, 0, MAX_DATETIME_TIMESTAMP, MAX_DATETIME_TIMESTAMP + 1, i64::MAX, i64::MIN] {
        assert_eq!(
            timestamp_representable(secs),
            chrono::DateTime::<chrono::Utc>::from_timestamp(secs, 0).is_some(),
            "{}",
            secs
        );
    }
    assert!(timestamp_representable(MIN_DATETIME_TIMESTAMP));
    assert!(timestamp_representable(MAX_DATETIME_TIMESTAMP));
    assert!(!timestamp_representable(MAX_DATETIME_TIMESTAMP + 1));
    assert!(!timestamp_representable(9223372036854775807));
}
