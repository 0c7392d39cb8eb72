use plexo_sdk::members::GetMembersWhere;
use plexo_sdk::members::MemberRole;

fn empty_node() -> GetMembersWhere {
    GetMembersWhere::default()
}

#[test]
fn empty_filter_compiles_to_nothing() {
    let (cond, params) = empty_node().compile_sql();
    assert_eq!(cond, "");
    assert!(params.is_empty());
}

#[test]
fn empty_vectors_compile_to_nothing() {
    let mut w = empty_node();
    w._and = Some(vec![]);
    w._or = Some(vec![]);
    let (cond, params) = w.compile_sql();
    assert_eq!(cond, "");
    assert!(params.is_empty());
}

#[test]
fn two_leaves_bind_in_canonical_order() {
    let mut w = empty_node();
    w.name = Some("a".to_string());
    w.email = Some("b".to_string());
    let (cond, params) = w.compile_sql();
    assert_eq!(cond, "(name = ? AND email = ?)");
    assert_eq!(params, vec!["a".to_string(), "b".to_string()]);
}

#[test]
fn leaf_values_never_reach_the_text() {
    let mut w = empty_node();
    w.name = Some("x' OR '1'='1".to_string());
    let (cond, params) = w.compile_sql();
    assert_eq!(cond, "(name = ?)");
    assert_eq!(params, vec!["x' OR '1'='1".to_string()]);
}

#[test]
fn role_leaf_uses_canonical_role_text() {
    let mut w = empty_node();
    w.role = Some(MemberRole::Admin);
    let (cond, params) = w.compile_sql();
    assert_eq!(cond, "(role = ?)");
    assert_eq!(params, vec!["admin".to_string()]);
}

#[test]
fn all_six_leaves_in_canonical_order() {
    let mut w = empty_node();
    w.photo_url = Some("p".to_string());
    w.google_id = Some("g2".to_string());
    w.github_id = Some("g1".to_string());
    w.role = Some(MemberRole::ReadOnly);
    w.email = Some("e".to_string());
    w.name = Some("n".to_string());
    let (cond, params) = w.compile_sql();
    assert_eq!(
        cond,
        "(name = ? AND email = ? AND role = ? AND github_id = ? AND google_id = ? AND photo_url = ?)"
    );
    assert_eq!(
        params,
        vec![
            "n".to_string(),
            "e".to_string(),
            "read_only".to_string(),
            "g1".to_string(),
            "g2".to_string(),
            "p".to_string()
        ]
    );
}

#[test]
fn and_group_before_or_group() {
    let mut x = empty_node();
    x.name = Some("x".to_string());
    let mut y = empty_node();
    y.email = Some("y".to_string());

    let mut w = empty_node();
    w._and = Some(vec![x]);
    w._or = Some(vec![y]);
    let (cond, params) = w.compile_sql();
    assert_eq!(cond, "((name = ?)) OR ((email = ?))");
    assert_eq!(params, vec!["x".to_string(), "y".to_string()]);
}

#[test]
fn leaves_mix_with_both_groups() {
    let mut child_and = empty_node();
    child_and.email = Some("b".to_string());
    let mut child_or = empty_node();
    child_or.role = Some(MemberRole::Member);

    let mut w = empty_node();
    w.name = Some("a".to_string());
    w._and = Some(vec![child_and]);
    w._or = Some(vec![child_or]);
    let (cond, params) = w.compile_sql();
    assert_eq!(cond, "(name = ? AND (email = ?)) OR ((role = ?))");
    assert_eq!(
        params,
        vec!["a".to_string(), "b".to_string(), "member".to_string()]
    );
}

#[test]
fn empty_children_are_skipped() {
    let mut w = empty_node();
    w.name = Some("a".to_string());
    w._and = Some(vec![empty_node(), empty_node()]);
    w._or = Some(vec![empty_node()]);
    let (cond, params) = w.compile_sql();
    assert_eq!(cond, "(name = ?)");
    assert_eq!(params, vec!["a".to_string()]);
}

#[test]
fn or_children_join_with_or() {
    let mut p = empty_node();
    p.name = Some("p".to_string());
    let mut q = empty_node();
    q.name = Some("q".to_string());

    let mut w = empty_node();
    w._or = Some(vec![p, q]);
    let (cond, params) = w.compile_sql();
    assert_eq!(cond, "((name = ?) OR (name = ?))");
    assert_eq!(params, vec!["p".to_string(), "q".to_string()]);
}

#[test]
fn deep_nesting_keeps_parameter_order() {
    let mut inner = empty_node();
    inner.google_id = Some("deep".to_string());

    let mut middle = empty_node();
    middle.email = Some("mid".to_string());
    middle._and = Some(vec![inner]);

    let mut w = empty_node();
    w.name = Some("top".to_string());
    w._and = Some(vec![middle]);

    let (cond, params) = w.compile_sql();
    assert_eq!(cond, "(name = ? AND (email = ? AND (google_id = ?)))");
    assert_eq!(
        params,
        vec!["top".to_string(), "mid".to_string(), "deep".to_string()]
    );
}

#[test]
fn placeholder_count_matches_parameter_count() {
    let mut child_and = empty_node();
    child_and.email = Some("b".to_string());
    child_and.github_id = Some("g".to_string());
    let mut child_or = empty_node();
    child_or.role = Some(MemberRole::Member);

    let mut w = empty_node();
    w.name = Some("a".to_string());
    w._and = Some(vec![child_and, empty_node()]);
    w._or = Some(vec![child_or]);

    let (cond, params) = w.compile_sql();
    assert_eq!(cond.matches('?').count(), params.len());
    assert_eq!(params.len(), 4);
}

#[test]
fn role_text_roundtrip_values() {
    assert_eq!(MemberRole::Admin.as_str(), "admin");
    assert_eq!(MemberRole::Member.as_str(), "member");
    assert_eq!(MemberRole::ReadOnly.as_str(), "read_only");
}
