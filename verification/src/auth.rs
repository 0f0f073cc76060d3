//! How a request is authorized, and how a login is decided. The
//! caller performs each step (reading the token, looking the account up)
//! and hands its result back.
use vstd::prelude::*;
use crate::account::User;
use crate::reply::{Reply, Status, text_reply, message_reply};
use crate::text::replace_all;
use crate::token::{
    bearer_prefix, bearer_token, signed_with, token_check, lemma_bearer_roundtrip,
    lemma_signed_token_has_two_dots,
};

verus! {

/// The `Authorization` header of a request, as far as authorization reads it.
pub enum AuthHeader {
    /// The request has no such header.
    Missing,
    /// The header is there but is not visible ASCII text.
    Unreadable,
    /// The header's text.
    Text(String),
}

/// What authorization does next.
pub enum AuthStep<E> {
    /// Check the form and signature of this token (`read_jwt` with the
    /// signing secret).
    VerifyToken { token: String },
    /// Read the account id (`sub`) from the claims of this signed token.
    ReadClaims { token: String, claims_json: String },
    /// Check the claims of this token, its expiry among them
    /// (`validate_jwt` with the signing secret); it names this account id.
    CheckClaims { token: String, user_id: String },
    /// Look up the account with this record id.
    FindUser { user_id: String },
    /// The request is authorized, on behalf of this user name.
    Accept { username: String },
    /// The request is refused with this reply.
    Refuse(Reply),
    /// The account store failed; answer with `status` and the error.
    StoreFailed { status: Status, error: E },
}

/// How authorization begins on the `Authorization` header.
pub open spec fn header_decision<E>(header: AuthHeader, step: AuthStep<E>) -> bool {
    match header {
        AuthHeader::Missing => step matches AuthStep::Refuse(r)
            && r@ == (Status::InternalServerError, "Authorization field not exist"@),
        AuthHeader::Unreadable => step matches AuthStep::Refuse(r)
            && r@ == (Status::InternalServerError, "Error parsing header to string"@),
        AuthHeader::Text(h) => step matches AuthStep::VerifyToken { token }
            && token@ == replace_all(h@, bearer_prefix(), ""@),
    }
}

/// Reading the header: a readable header yields the token in it, whatever
/// its length or content, and goes on to have that token verified.
pub fn auth_on_header<E>(header: AuthHeader) -> (step: AuthStep<E>)
    ensures
        header_decision(header, step),
        header matches AuthHeader::Text(h) ==> (step matches AuthStep::VerifyToken { token }
            && token@ == replace_all(h@, "Bearer "@, ""@)),
{
    match header {
        AuthHeader::Missing => AuthStep::Refuse(
            text_reply(Status::InternalServerError, "Authorization field not exist"),
        ),
        AuthHeader::Unreadable => AuthStep::Refuse(
            text_reply(Status::InternalServerError, "Error parsing header to string"),
        ),
        AuthHeader::Text(h) => AuthStep::VerifyToken { token: bearer_token(h.as_str()) },
    }
}

/// Every readable header goes on to have its token verified: the token is
/// the header's text with every `Bearer ` taken out.
pub proof fn lemma_readable_header_is_verified<E>(h: String, step: AuthStep<E>)
    requires
        header_decision(AuthHeader::Text(h), step),
    ensures
        step matches AuthStep::VerifyToken { token } && token@ == replace_all(h@, "Bearer "@, ""@),
        step !is Refuse,
{
}

/// A header `Bearer {t}` whose token `t` holds no space has exactly `t`
/// verified.
pub proof fn lemma_bearer_header_verifies_its_token<E>(h: String, t: Seq<char>, step: AuthStep<E>)
    requires
        header_decision(AuthHeader::Text(h), step),
        h@ == "Bearer "@ + t,
        !t.contains(' '),
    ensures
        step matches AuthStep::VerifyToken { token } && token@ == t,
{
    lemma_bearer_roundtrip(t);
}

/// How authorization goes on once the form and signature of `token` were
/// checked (`verified`).
pub open spec fn verified_decision<E>(token: String, verified: Result<String, String>, step: AuthStep<E>) -> bool {
    match verified {
        Ok(c) => step matches AuthStep::ReadClaims { token: t, claims_json }
            && t == token && claims_json == c,
        Err(why) => step matches AuthStep::Refuse(r) && r@ == (Status::Unauthorized, why@),
    }
}

/// After the form and signature of `token` are checked: its claims text
/// when it is signed, else the error's `Debug` text.
pub fn auth_on_verified<E>(token: String, verified: Result<String, String>) -> (step: AuthStep<E>)
    ensures
        verified_decision(token, verified, step),
{
    match verified {
        Ok(c) => AuthStep::ReadClaims { token, claims_json: c },
        Err(why) => AuthStep::Refuse(message_reply(Status::Unauthorized, why)),
    }
}

/// How authorization goes on once the account id was read from the claims
/// of `token` (`read`).
pub open spec fn claims_decision<E>(token: String, read: Result<String, String>, step: AuthStep<E>) -> bool {
    match read {
        Ok(sub) => step matches AuthStep::CheckClaims { token: t, user_id }
            && t == token && user_id == sub,
        Err(why) => step matches AuthStep::Refuse(r) && r@ == (Status::Unauthorized, why@),
    }
}

/// After the claims of `token` are read: `Ok(sub)` when they have the
/// shape of the token claims, else the error's `Debug` text.
pub fn auth_on_token<E>(token: String, read: Result<String, String>) -> (step: AuthStep<E>)
    ensures
        claims_decision(token, read, step),
{
    match read {
        Ok(sub) => AuthStep::CheckClaims { token, user_id: sub },
        Err(why) => AuthStep::Refuse(message_reply(Status::Unauthorized, why)),
    }
}

/// How authorization goes on once the claims of the token that names
/// `user_id` were checked (`checked`).
pub open spec fn checked_decision<E>(user_id: String, checked: Result<String, String>, step: AuthStep<E>) -> bool {
    match checked {
        Ok(_) => step matches AuthStep::FindUser { user_id: u } && u == user_id,
        Err(why) => step matches AuthStep::Refuse(r) && r@ == (Status::Unauthorized, why@),
    }
}

/// After the claims of the token that names `user_id` are checked: the
/// account is looked up when they hold, else the error's `Debug` text.
pub fn auth_on_checked<E>(user_id: String, checked: Result<String, String>) -> (step: AuthStep<E>)
    ensures
        checked_decision(user_id, checked, step),
{
    match checked {
        Ok(_) => AuthStep::FindUser { user_id },
        Err(why) => AuthStep::Refuse(message_reply(Status::Unauthorized, why)),
    }
}

/// How authorization ends on the account lookup (`found`).
pub open spec fn lookup_decision<E>(found: Result<Option<User>, E>, step: AuthStep<E>) -> bool {
    match found {
        Ok(Some(u)) => step matches AuthStep::Accept { username } && username == u.username,
        Ok(None) => step matches AuthStep::Refuse(r)
            && r@ == (Status::Unauthorized, "User not found"@),
        Err(e) => step matches AuthStep::StoreFailed { status, error }
            && status == Status::InternalServerError && error == e,
    }
}

/// After the account lookup: a stored account authorizes the request.
pub fn auth_on_lookup<E>(found: Result<Option<User>, E>) -> (step: AuthStep<E>)
    ensures
        lookup_decision(found, step),
{
    match found {
        Ok(Some(u)) => AuthStep::Accept { username: u.username },
        Ok(None) => AuthStep::Refuse(text_reply(Status::Unauthorized, "User not found")),
        Err(e) => AuthStep::StoreFailed { status: Status::InternalServerError, error: e },
    }
}

/// Authorization goes on to the account only for a token that
/// `validate_jwt` accepted under `secret`: such a token is signed with
/// `secret` (its last part is the HS256 signature of the rest), and so has
/// at least two dots.
pub proof fn lemma_lookup_only_for_signed_token<E>(
    token: Seq<char>,
    secret: Seq<u8>,
    user_id: String,
    checked: Result<String, String>,
    step: AuthStep<E>,
)
    requires
        token_check(token, secret, checked),
        checked_decision(user_id, checked, step),
        step is FindUser,
    ensures
        signed_with(token, secret),
        exists|i: int, j: int| 0 <= i < j < token.len() && token[i] == '.' && token[j] == '.',
        step matches AuthStep::FindUser { user_id: u } && u == user_id,
{
    lemma_signed_token_has_two_dots(token, secret);
}

/// A request is accepted only when its `Authorization` header holds, with
/// every `Bearer ` taken out, a token that passed the signature check and
/// the full claim check under `secret` (so it is signed with `secret`),
/// whose claims gave the account id that was looked up, and the store found
/// that account; the request runs under that account's name.
pub proof fn lemma_accepted_request<E>(
    header: AuthHeader,
    secret: Seq<u8>,
    s1: AuthStep<E>,
    verified: Result<String, String>,
    s2: AuthStep<E>,
    read: Result<String, String>,
    s3: AuthStep<E>,
    checked: Result<String, String>,
    s4: AuthStep<E>,
    found: Result<Option<User>, E>,
    s5: AuthStep<E>,
)
    requires
        header_decision(header, s1),
        s1 is VerifyToken,
        token_check(s1->VerifyToken_token@, secret, verified),
        verified_decision(s1->VerifyToken_token, verified, s2),
        s2 is ReadClaims,
        claims_decision(s2->ReadClaims_token, read, s3),
        s3 is CheckClaims,
        token_check(s3->CheckClaims_token@, secret, checked),
        checked_decision(s3->CheckClaims_user_id, checked, s4),
        s4 is FindUser,
        lookup_decision(found, s5),
        s5 is Accept,
    ensures
        header matches AuthHeader::Text(h)
            && s1->VerifyToken_token@ == replace_all(h@, bearer_prefix(), ""@),
        verified is Ok,
        checked is Ok,
        s3->CheckClaims_token == s1->VerifyToken_token,
        signed_with(s1->VerifyToken_token@, secret),
        read == Ok::<String, String>(s3->CheckClaims_user_id),
        s4->FindUser_user_id == s3->CheckClaims_user_id,
        found matches Ok(Some(u)) && s5->Accept_username == u.username,
{
}

/// What the login route does after looking the account up by name.
pub enum LoginStep<E> {
    /// Issue a token for this user name, and answer 201 with it.
    IssueToken { username: String },
    /// No account has this name: make one with the password of the request,
    /// then answer as for a name without an account.
    CreateAccount { username: String },
    /// The login is refused with this reply.
    Refuse(Reply),
    /// The account store failed; answer with `status` and the error.
    StoreFailed { status: Status, error: E },
}

/// How the login route answers the lookup `found` for a request for
/// `username` with `password`.
pub open spec fn login_decision<E>(
    found: Result<Option<User>, E>,
    username: Seq<char>,
    password: Seq<char>,
    step: LoginStep<E>,
) -> bool {
    match found {
        Ok(Some(u)) => if u.accepts(password) {
            step matches LoginStep::IssueToken { username } && username == u.username
        } else {
            step matches LoginStep::Refuse(r) && r@ == (Status::Unauthorized, "Wrong password"@)
        },
        Ok(None) => step matches LoginStep::CreateAccount { username: n } && n@ == username,
        Err(e) => step matches LoginStep::StoreFailed { status, error }
            && status == Status::InternalServerError && error == e,
    }
}

/// Decides a login: an existing account must accept the password, and is
/// refused with 401 "Wrong password" when it does not; only a name that no
/// account has gets an account made for it.
pub fn login_step<E>(found: Result<Option<User>, E>, username: &str, password: &str) -> (step: LoginStep<E>)
    ensures
        login_decision(found, username@, password@, step),
        found matches Ok(Some(u)) ==> (!u.accepts(password@) ==> (step matches LoginStep::Refuse(r)
            && r@ == (Status::Unauthorized, "Wrong password"@))),
        step is CreateAccount ==> found == Ok::<Option<User>, E>(None),
{
    match found {
        Ok(Some(u)) => {
            if u.verify_password(password) {
                LoginStep::IssueToken { username: u.username }
            } else {
                LoginStep::Refuse(text_reply(Status::Unauthorized, "Wrong password"))
            }
        },
        Ok(None) => LoginStep::CreateAccount { username: String::from_str(username) },
        Err(e) => LoginStep::StoreFailed { status: Status::InternalServerError, error: e },
    }
}

/// How the login route answers once the account it asked for was made
/// (`created`).
pub open spec fn login_after_create_decision<E>(created: Result<User, E>, step: LoginStep<E>) -> bool {
    match created {
        Ok(_) => step matches LoginStep::Refuse(r) && r@ == (Status::Unauthorized, "User not exist"@),
        Err(e) => step matches LoginStep::StoreFailed { status, error }
            && status == Status::InternalServerError && error == e,
    }
}

/// After the account for a login was made: the login itself is still
/// answered as for a name that had no account (401 "User not exist"), or
/// with the store's failure.
pub fn login_after_create<E>(created: Result<User, E>) -> (step: LoginStep<E>)
    ensures
        login_after_create_decision(created, step),
{
    match created {
        Ok(_) => LoginStep::Refuse(text_reply(Status::Unauthorized, "User not exist")),
        Err(e) => LoginStep::StoreFailed { status: Status::InternalServerError, error: e },
    }
}

/// The reply to a granted login: 201 with the token as the message.
pub fn token_reply(token: String) -> (r: Reply)
    ensures
        r@ == (Status::Created, token@),
{
    message_reply(Status::Created, token)
}

/// A login for a name that no account has asks for an account of that
/// name to be made, and once it is made, answers 401 "User not exist".
pub proof fn lemma_login_creates_missing_account<E>(
    username: Seq<char>,
    password: Seq<char>,
    step: LoginStep<E>,
    created: User,
    after: LoginStep<E>,
)
    requires
        login_decision(Ok::<Option<User>, E>(None), username, password, step),
        login_after_create_decision(Ok::<User, E>(created), after),
    ensures
        step matches LoginStep::CreateAccount { username: n } && n@ == username,
        after matches LoginStep::Refuse(r) && r@ == (Status::Unauthorized, "User not exist"@),
{
}

/// An account that the store finds logs in with the password it was made
/// for, under its own name.
pub proof fn lemma_login_with_own_password<E>(
    u: User,
    username: Seq<char>,
    password: Seq<char>,
    step: LoginStep<E>,
)
    requires
        u.accepts(password),
        login_decision(Ok::<Option<User>, E>(Some(u)), username, password, step),
    ensures
        step matches LoginStep::IssueToken { username } && username == u.username,
{
}

/// A found account that does not accept the password is refused with 401
/// "Wrong password", and no account is made for a name that has one.
pub proof fn lemma_wrong_password_refused<E>(
    u: User,
    username: Seq<char>,
    password: Seq<char>,
    step: LoginStep<E>,
)
    requires
        !u.accepts(password),
        login_decision(Ok::<Option<User>, E>(Some(u)), username, password, step),
    ensures
        step matches LoginStep::Refuse(r) && r@ == (Status::Unauthorized, "Wrong password"@),
        step !is CreateAccount,
        step !is IssueToken,
{
}

/// An account is made only when the lookup found no account of that name.
pub proof fn lemma_account_made_only_for_unknown_name<E>(
    found: Result<Option<User>, E>,
    username: Seq<char>,
    password: Seq<char>,
    step: LoginStep<E>,
)
    requires
        login_decision(found, username, password, step),
        step is CreateAccount,
    ensures
        found == Ok::<Option<User>, E>(None),
        step matches LoginStep::CreateAccount { username: n } && n@ == username,
{
}

/// A token is issued at once only for an account that the store found and
/// that accepts the password given.
pub proof fn lemma_login_granted_only_on_match<E>(
    found: Result<Option<User>, E>,
    username: Seq<char>,
    password: Seq<char>,
    step: LoginStep<E>,
)
    requires
        login_decision(found, username, password, step),
        step is IssueToken,
    ensures
        found matches Ok(Some(u)) && u.accepts(password) && step->IssueToken_username == u.username,
{
}

} // verus!
