use plexo_sdk::errors::SDKError;
use plexo_sdk::members::GetMembersWhere;
use plexo_sdk::query::GetMembersInput;
use plexo_sdk::query::SortOrder;
use plexo_sdk::query::is_allowed_sort_column;
use plexo_sdk::text::join_with;
use plexo_sdk::text::u32_to_string;

#[test]
fn defaults_are_limit_100_offset_0_without_where() {
    let input = GetMembersInput::new(None, None, None, None, None).expect("valid request");
    let (sql, params) = input.assemble("members");
    assert_eq!(sql, "SELECT * FROM members LIMIT 100 OFFSET 0");
    assert!(!sql.contains("WHERE"));
    assert!(params.is_empty());
}

#[test]
fn empty_predicate_omits_where_entirely() {
    let filter = GetMembersWhere::default();
    let input =
        GetMembersInput::new(Some(filter), None, None, None, None).expect("valid request");
    let (sql, params) = input.assemble("members");
    assert_eq!(sql, "SELECT * FROM members LIMIT 100 OFFSET 0");
    assert!(!sql.contains("WHERE"));
    assert!(params.is_empty());
}

#[test]
fn full_statement_with_filter_sort_and_paging() {
    let mut filter = GetMembersWhere::default();
    filter.name = Some("a".to_string());
    let input = GetMembersInput::new(
        Some(filter),
        Some("email".to_string()),
        Some(SortOrder::Desc),
        Some(5),
        Some(2),
    )
    .expect("valid request");
    let (sql, params) = input.assemble("members");
    assert_eq!(
        sql,
        "SELECT * FROM members WHERE (name = ?) ORDER BY email DESC LIMIT 5 OFFSET 2"
    );
    assert_eq!(params, vec!["a".to_string()]);
}

#[test]
fn sort_without_order_defaults_to_ascending() {
    let input = GetMembersInput::new(None, Some("name".to_string()), None, None, None)
        .expect("valid request");
    let (sql, params) = input.assemble("members");
    assert_eq!(sql, "SELECT * FROM members ORDER BY name ASC LIMIT 100 OFFSET 0");
    assert!(params.is_empty());
}

#[test]
fn sort_column_off_the_allowlist_is_refused() {
    let hostile = "name; DROP TABLE members".to_string();
    let refused = GetMembersInput::new(None, Some(hostile), None, None, None);
    assert!(matches!(refused, Err(SDKError::QueryError(_))));
}

#[test]
fn negative_paging_is_refused() {
    let refused = GetMembersInput::new(None, None, None, Some(-1), None);
    assert!(matches!(refused, Err(SDKError::QueryError(_))));
    let refused = GetMembersInput::new(None, None, None, None, Some(-7));
    assert!(matches!(refused, Err(SDKError::QueryError(_))));
}

#[test]
fn allowlist_membership() {
    for ok in [
        "id",
        "created_at",
        "updated_at",
        "name",
        "email",
        "role",
        "github_id",
        "google_id",
        "photo_url",
    ] {
        assert!(is_allowed_sort_column(&ok.to_string()), "{ok} should be allowed");
    }
    assert!(!is_allowed_sort_column(&"password_hash".to_string()));
    assert!(!is_allowed_sort_column(&"".to_string()));
    assert!(!is_allowed_sort_column(&"Name".to_string()));
}

#[test]
fn default_request_pages_from_zero() {
    let input = GetMembersInput::default();
    assert!(input.filter.is_none());
    assert!(input.sort_by.is_none());
    assert!(input.sort_order.is_none());
    assert_eq!(input.limit, Some(100));
    assert_eq!(input.offset, Some(0));
}

#[test]
fn sort_order_text() {
    assert_eq!(SortOrder::Asc.as_str(), "ASC");
    assert_eq!(SortOrder::Desc.as_str(), "DESC");
}

#[test]
fn decimal_rendering_edge_values() {
    assert_eq!(u32_to_string(0), "0");
    assert_eq!(u32_to_string(7), "7");
    assert_eq!(u32_to_string(10), "10");
    assert_eq!(u32_to_string(100), "100");
    assert_eq!(u32_to_string(4294967295), "4294967295");
}

#[test]
fn join_with_separator() {
    let parts = vec!["a".to_string(), "b".to_string(), "c".to_string()];
    assert_eq!(join_with(&parts, " AND "), "a AND b AND c");
    let single = vec!["only".to_string()];
    assert_eq!(join_with(&single, ", "), "only");
    let none: Vec<String> = vec![];
    assert_eq!(join_with(&none, ", "), "");
}
