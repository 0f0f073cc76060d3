use photo_backend::account::User;
use photo_backend::auth::{
    auth_on_checked, auth_on_header, auth_on_lookup, auth_on_token, auth_on_verified,
    login_after_create, login_step, token_reply, AuthHeader, AuthStep, LoginStep,
};
use photo_backend::reply::Status;

fn account(password: &str) -> User {
    let mut u = User::new("alice".to_string(), password.to_string(), String::new()).unwrap();
    u.id = Some("user:alice".to_string());
    u
}

#[test]
fn missing_header_is_refused() {
    match auth_on_header::<String>(AuthHeader::Missing) {
        AuthStep::Refuse(r) => {
            assert_eq!(r.status, Status::InternalServerError);
            assert_eq!(r.status.code(), 500);
            assert_eq!(r.body.msg, "Authorization field not exist");
        }
        _ => panic!("expected a refusal"),
    }
}

#[test]
fn unreadable_header_is_refused() {
    match auth_on_header::<String>(AuthHeader::Unreadable) {
        AuthStep::Refuse(r) => {
            assert_eq!(r.status.code(), 500);
            assert_eq!(r.body.msg, "Error parsing header to string");
        }
        _ => panic!("expected a refusal"),
    }
}

#[test]
fn header_text_yields_the_token() {
    match auth_on_header::<String>(AuthHeader::Text("Bearer a.b.c".to_string())) {
        AuthStep::VerifyToken { token } => assert_eq!(token, "a.b.c"),
        _ => panic!("expected a token check"),
    }
}

#[test]
fn invalid_token_is_unauthorized_with_its_error() {
    match auth_on_checked::<String>("user:alice".to_string(), Err("Error(ExpiredSignature)".to_string())) {
        AuthStep::Refuse(r) => {
            assert_eq!(r.status.code(), 401);
            assert_eq!(r.body.msg, "Error(ExpiredSignature)");
        }
        _ => panic!("expected a refusal"),
    }
}

#[test]
fn valid_token_leads_to_the_lookup() {
    match auth_on_checked::<String>("user:alice".to_string(), Ok("{}".to_string())) {
        AuthStep::FindUser { user_id } => assert_eq!(user_id, "user:alice"),
        _ => panic!("expected a lookup"),
    }
}

#[test]
fn found_account_is_accepted() {
    let u = account("pw");
    match auth_on_lookup::<String>(Ok(Some(u))) {
        AuthStep::Accept { username } => assert_eq!(username, "alice"),
        _ => panic!("expected acceptance"),
    }
}

#[test]
fn unknown_account_is_refused() {
    match auth_on_lookup::<String>(Ok(None)) {
        AuthStep::Refuse(r) => {
            assert_eq!(r.status.code(), 401);
            assert_eq!(r.body.msg, "User not found");
        }
        _ => panic!("expected a refusal"),
    }
}

#[test]
fn store_failure_during_auth() {
    match auth_on_lookup::<String>(Err("db down".to_string())) {
        AuthStep::StoreFailed { status, error } => {
            assert_eq!(status.code(), 500);
            assert_eq!(error, "db down");
        }
        _ => panic!("expected a store failure"),
    }
}

#[test]
fn login_with_the_right_password() {
    match login_step::<String>(Ok(Some(account("hunter2"))), "alice", "hunter2") {
        LoginStep::IssueToken { username } => assert_eq!(username, "alice"),
        _ => panic!("expected a token"),
    }
}

#[test]
fn login_with_a_wrong_password() {
    match login_step::<String>(Ok(Some(account("hunter2"))), "alice", "hunter3") {
        LoginStep::Refuse(r) => {
            assert_eq!(r.status.code(), 401);
            assert_eq!(r.body.msg, "Wrong password");
        }
        _ => panic!("expected a refusal"),
    }
}

#[test]
fn login_of_an_unknown_user_makes_the_account() {
    match login_step::<String>(Ok(None), "dave", "x") {
        LoginStep::CreateAccount { username } => assert_eq!(username, "dave"),
        _ => panic!("expected an account to be made"),
    }
}

#[test]
fn login_after_the_account_is_made() {
    let made = User::new("dave".to_string(), "x".to_string(), String::new()).unwrap();
    match login_after_create::<String>(Ok(made)) {
        LoginStep::Refuse(r) => {
            assert_eq!(r.status.code(), 401);
            assert_eq!(r.body.msg, "User not exist");
        }
        _ => panic!("expected the unknown-name answer"),
    }
    match login_after_create::<String>(Err("db down".to_string())) {
        LoginStep::StoreFailed { status, error } => {
            assert_eq!(status.code(), 500);
            assert_eq!(error, "db down");
        }
        _ => panic!("expected a store failure"),
    }
}

#[test]
fn verified_claims_are_read_next() {
    match auth_on_verified::<String>("a.b.c".to_string(), Ok("{}".to_string())) {
        AuthStep::ReadClaims { token, claims_json } => {
            assert_eq!(token, "a.b.c");
            assert_eq!(claims_json, "{}");
        }
        _ => panic!("expected the claims to be read"),
    }
    match auth_on_verified::<String>("a.b.c".to_string(), Err("Error(InvalidSignature)".to_string())) {
        AuthStep::Refuse(r) => {
            assert_eq!(r.status.code(), 401);
            assert_eq!(r.body.msg, "Error(InvalidSignature)");
        }
        _ => panic!("expected a refusal"),
    }
}

#[test]
fn login_store_failure() {
    match login_step::<String>(Err("db down".to_string()), "x", "x") {
        LoginStep::StoreFailed { status, error } => {
            assert_eq!(status, Status::InternalServerError);
            assert_eq!(error, "db down");
        }
        _ => panic!("expected a store failure"),
    }
}

#[test]
fn granted_login_reply() {
    let r = token_reply("a.b.c".to_string());
    assert_eq!(r.status.code(), 201);
    assert_eq!(r.body.msg, "a.b.c");
}

#[test]
fn read_claims_lead_to_the_claim_check() {
    match auth_on_token::<String>("a.b.c".to_string(), Ok("user:alice".to_string())) {
        AuthStep::CheckClaims { token, user_id } => {
            assert_eq!(token, "a.b.c");
            assert_eq!(user_id, "user:alice");
        }
        _ => panic!("expected the claim check"),
    }
    match auth_on_token::<String>("a.b.c".to_string(), Err("Error(Json(..))".to_string())) {
        AuthStep::Refuse(r) => {
            assert_eq!(r.status.code(), 401);
            assert_eq!(r.body.msg, "Error(Json(..))");
        }
        _ => panic!("expected a refusal"),
    }
}
