use photo_backend::query::{
    all_users_query, user_by_id_query, user_by_username_query, users_page_query, LISTING_LIMIT,
    USER_TABLE,
};

#[test]
fn all_users_reads_the_first_hundred() {
    assert_eq!(all_users_query(), "SELECT * FROM user LIMIT 100 START 0");
    assert_eq!(LISTING_LIMIT, 100);
}

#[test]
fn lookup_value_is_quoted() {
    assert_eq!(
        user_by_username_query("x' OR username != '"),
        "SELECT * FROM user WHERE username = 'x\\' OR username != \\''"
    );
    assert_eq!(user_by_id_query("a\\b"), "SELECT * FROM user WHERE id = 'a\\\\b'");
}

#[test]
fn page_query_text() {
    assert_eq!(users_page_query(100, 20), "SELECT * FROM user LIMIT 100 START 20");
    assert_eq!(users_page_query(0, 0), "SELECT * FROM user LIMIT 0 START 0");
}

#[test]
fn lookup_queries_quote_the_value() {
    assert_eq!(user_by_id_query("user:abc"), "SELECT * FROM user WHERE id = 'user:abc'");
    assert_eq!(
        user_by_username_query("alice"),
        "SELECT * FROM user WHERE username = 'alice'"
    );
}

#[test]
fn table_name() {
    assert_eq!(USER_TABLE, "user");
}
