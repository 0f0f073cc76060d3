use photo_backend::account::{existing_user, existing_user_named, User, PASSWORD_COST};

fn stored(id: Option<&str>) -> User {
    User {
        id: id.map(|s| s.to_string()),
        username: "alice".to_string(),
        password: "x".to_string(),
        created_at: "2024-01-01T00:00:00+00:00".to_string(),
        is_delete: false,
    }
}

#[test]
fn new_account_accepts_its_password() {
    let u = User::new("alice".to_string(), "hunter2".to_string(), "2024-01-01T00:00:00+00:00".to_string())
        .unwrap();
    assert_eq!(u.id, None);
    assert_eq!(u.username, "alice");
    assert_eq!(u.created_at, "2024-01-01T00:00:00+00:00");
    assert!(!u.is_delete);
    assert_ne!(u.password, "hunter2");
    assert!(u.password.starts_with("$2b$10$"));
    assert_eq!(u.password.len(), 60);
    assert!(u.verify_password("hunter2"));
}

#[test]
fn new_account_refuses_other_passwords() {
    let u = User::new("bob".to_string(), "correct horse".to_string(), String::new()).unwrap();
    assert!(!u.verify_password("correct hors"));
    assert!(!u.verify_password(""));
}

#[test]
fn unreadable_hash_matches_nothing() {
    let u = stored(Some("user:1"));
    assert!(!u.verify_password("x"));
}

#[test]
fn known_hash_verifies() {
    let mut u = stored(Some("user:1"));
    u.password = "$2y$12$L6Bc/AlTQHyd9liGgGEZyOFLPHNgyxeEPfgYfBCVxJ7JIlwxyVU3u".to_string();
    assert_eq!(u.verify_password("hunter2"), bcrypt::verify("hunter2", &u.password).unwrap());
}

#[test]
fn cost_is_ten() {
    assert_eq!(PASSWORD_COST, 10);
}

#[test]
fn lookup_with_id_is_an_account() {
    let r: Result<Option<User>, String> = existing_user(Ok(stored(Some("user:1"))));
    assert_eq!(r.unwrap().unwrap().id.as_deref(), Some("user:1"));
}

#[test]
fn lookup_without_id_is_no_account() {
    let r: Result<Option<User>, String> = existing_user(Ok(stored(None)));
    assert!(r.unwrap().is_none());
}

#[test]
fn lookup_error_passes_through() {
    let r: Result<Option<User>, String> = existing_user(Err("down".to_string()));
    assert_eq!(r.unwrap_err(), "down");
}

#[test]
fn account_from_a_hash() {
    let u = User::with_hash("carol".to_string(), Ok("$2b$10$abc".to_string()), "t".to_string())
        .unwrap();
    assert_eq!(u.id, None);
    assert_eq!(u.username, "carol");
    assert_eq!(u.password, "$2b$10$abc");
    assert_eq!(u.created_at, "t");
    assert!(!u.is_delete);
}

#[test]
fn failed_hashing_is_an_account_error() {
    let failed = bcrypt::hash("x", 3);
    assert!(failed.is_err());
    let r = User::with_hash("carol".to_string(), failed, "t".to_string());
    assert!(matches!(r, Err(photo_backend::account::AccountError::Hashing)));
}

#[test]
fn text_that_is_no_hash_accepts_nothing() {
    let mut u = User::default();
    u.password = "secret".to_string();
    assert!(!u.verify_password("secret"));
    assert!(!User::default().verify_password(""));
}

#[test]
fn lookup_by_name_wants_that_name() {
    let r: Result<Option<User>, String> = existing_user_named(Ok(stored(Some("user:1"))), "alice");
    assert_eq!(r.unwrap().unwrap().username, "alice");
    let r: Result<Option<User>, String> = existing_user_named(Ok(stored(Some("user:1"))), "bob");
    assert!(r.unwrap().is_none());
    let r: Result<Option<User>, String> = existing_user_named(Ok(stored(None)), "alice");
    assert!(r.unwrap().is_none());
    let r: Result<Option<User>, String> = existing_user_named(Err("down".to_string()), "alice");
    assert_eq!(r.unwrap_err(), "down");
}
