//! Access tokens: the claims they carry, their HS256 signature, and how a
//! token is read out of an `Authorization` header.
use vstd::prelude::*;
use crate::text::{
    replace_all, replace_text, lemma_absent_by_char, lemma_replace_absent, lemma_replace_leading,
};

verus! {

#[verifier::external_type_specification]
#[verifier::external_body]
pub struct ExJwtError(jsonwebtoken::errors::Error);

/// The claims of an access token: whom it names, when it was issued and
/// when it runs out, in seconds since the Unix epoch.
#[derive(Clone, Debug)]
pub struct Claims {
    pub sub: String,
    pub iat: usize,
    pub exp: usize,
}

/// The claims of a token for `sub`, issued at `now` and good for `ttl`
/// seconds. A clock before the epoch wraps round as `now as usize` does.
pub fn claims_for(sub: String, now: i64, ttl: usize) -> (c: Claims)
    requires
        (now as usize) + ttl <= usize::MAX,
    ensures
        c.sub == sub,
        c.iat == now as usize,
        c.exp == c.iat + ttl,
{
    let iat = now as usize;
    Claims { sub, iat, exp: iat + ttl }
}

/// The token that `jsonwebtoken::encode` makes with the default header
/// (`HS256`) of the claims whose JSON text is `claims_json`, signed with
/// `secret`; `None` where it gives an error. Two outside functions stand
/// behind it: `serde_json::value::RawValue::from_string`, which takes the
/// JSON text as it is (without surrounding white space) or refuses text
/// that is not JSON, and `jsonwebtoken::encode`, which signs it.
pub uninterp spec fn hs256_token(claims_json: Seq<char>, secret: Seq<u8>) -> Option<Seq<char>>;

/// The signature part of an HS256 token whose first two parts are
/// `message`: the URL-safe base64, without padding, of the HMAC-SHA256 of
/// `message` under `secret` (`jsonwebtoken::crypto::sign` with
/// `Algorithm::HS256`, which `encode` and `decode` both call).
pub uninterp spec fn hs256_signature(message: Seq<char>, secret: Seq<u8>) -> Seq<char>;

/// `token` is a message that holds a `.` (header and claims), then `.`,
/// then the HS256 signature of that message under `secret`.
pub open spec fn signed_with(token: Seq<char>, secret: Seq<u8>) -> bool {
    exists|m: Seq<char>|
        #![trigger hs256_signature(m, secret)]
        m.contains('.') && !hs256_signature(m, secret).contains('.') && token == m + seq!['.']
            + hs256_signature(m, secret)
}

/// The white space of JSON.
pub open spec fn json_space(c: char) -> bool {
    c == ' ' || c == '\t' || c == '\n' || c == '\r'
}

/// JSON text with no white space around it.
pub open spec fn bare_json(text: Seq<char>) -> bool {
    text.len() > 0 && !json_space(text[0]) && !json_space(text.last())
}

/// `claims` is the claims text of every token for `secret` that equals
/// `token` and was made from bare JSON text.
pub open spec fn claims_of_token(token: Seq<char>, secret: Seq<u8>, claims: Seq<char>) -> bool {
    forall|c: Seq<char>| bare_json(c) && #[trigger] hs256_token(c, secret) == Some(token) ==> claims == c
}

/// `jsonwebtoken::encode` with `Header::default()` and
/// `EncodingKey::from_secret(secret)`, of the claims given as their JSON
/// text (handed over unchanged through `serde_json`'s `RawValue`). HMAC
/// signing makes the token a function of the two arguments alone, named by
/// `hs256_token`. A token is three URL-safe base64 parts joined by `.`, so it
/// holds no space; its last part is the HS256 signature of the first two;
/// its middle part encodes the claims text, so bare claims texts that give
/// the same token are the same text.
#[verifier::external_body]
fn encode_hs256(claims_json: &str, secret: &[u8]) -> (res: Result<String, jsonwebtoken::errors::Error>)
    ensures
        match res {
            Ok(t) => hs256_token(claims_json@, secret@) == Some(t@),
            Err(_) => hs256_token(claims_json@, secret@) is None,
        },
        res matches Ok(t) ==> !t@.contains(' '),
        res matches Ok(t) ==> exists|m: Seq<char>|
            #![trigger hs256_signature(m, secret@)]
            m.contains('.') && !hs256_signature(m, secret@).contains('.') && t@ == m + seq!['.']
                + hs256_signature(m, secret@),
        res matches Ok(t) ==> (bare_json(claims_json@) ==> claims_of_token(t@, secret@, claims_json@)),
{
    match serde_json::value::RawValue::from_string(claims_json.to_string()) {
        Ok(raw) => jsonwebtoken::encode(
            &jsonwebtoken::Header::default(),
            &raw,
            &jsonwebtoken::EncodingKey::from_secret(secret),
        ),
        Err(e) => Err(e.into()),
    }
}

/// The HS256 token of the claims whose JSON text is `claims_json`, signed
/// with `secret`; `None` where signing fails. A token sent back as
/// `Bearer {token}` is read out of the header as itself, and the token of
/// bare claims text is the token of no other bare claims text.
pub fn sign_jwt(claims_json: &str, secret: &[u8]) -> (token: Option<String>)
    ensures
        match token {
            Some(t) => hs256_token(claims_json@, secret@) == Some(t@),
            None => hs256_token(claims_json@, secret@) is None,
        },
        token matches Some(t) ==> replace_all(bearer_prefix() + t@, bearer_prefix(), ""@) == t@,
        token matches Some(t) ==> (bare_json(claims_json@) ==> claims_of_token(t@, secret@, claims_json@)),
        token matches Some(t) ==> signed_with(t@, secret@),
{
    match encode_hs256(claims_json, secret) {
        Ok(t) => {
            proof {
                lemma_bearer_roundtrip(t@);
                assert(signed_with(t@, secret@));
            }
            Some(t)
        },
        Err(_) => None,
    }
}

/// The claim checks that a token check asks `jsonwebtoken::decode` to make
/// (the fields of `Validation` that it sets).
struct ClaimChecks {
    /// Check `exp` against the current time (with `Validation`'s 60 s leeway).
    validate_exp: bool,
    /// Refuse a token that names an audience.
    validate_aud: bool,
    /// The claims that the token must carry.
    required: Vec<String>,
}

/// What `jsonwebtoken::decode` gives back, with `Algorithm::HS256` and no
/// check of `exp`, for `token` under `secret`, refusing a token that names
/// an audience when `validate_aud` holds and one that lacks a claim in
/// `required`: the claims as their JSON text, or `None` for an error.
pub uninterp spec fn hs256_claims(
    token: Seq<char>,
    secret: Seq<u8>,
    validate_aud: bool,
    required: Seq<Seq<char>>,
) -> Option<Seq<char>>;

/// `jsonwebtoken::decode` of `token` with `DecodingKey::from_secret(secret)`
/// and `Validation::new(Algorithm::HS256)` whose `validate_exp`,
/// `validate_aud` and required claims are set from `checks`; the claims are
/// taken as their JSON text (through `serde_json`'s `RawValue`), and an
/// error comes back with whether its kind is `ExpiredSignature`. With the
/// `exp` check, success depends on the clock; without it (`validate_nbf` is
/// off too) the result is a function of the arguments, named by
/// `hs256_claims`. The clock is read in one place only (`validate`, after
/// the required claims are checked), and there it can only refuse, with
/// `ExpiredSignature`: so a success is a success of the check without the
/// clock, with the same claims, and any other error is one that the check
/// without the clock gives too. What holds of every success: `decode` split
/// the token at its last two dots and found the last part to be the HS256
/// signature of the rest under `secret`; and a token that `hs256_token`
/// made of bare claims text gives back that same text.
#[verifier::external_body]
fn decode_hs256(token: &str, secret: &[u8], checks: &ClaimChecks) -> (res: Result<
    String,
    (bool, jsonwebtoken::errors::Error),
>)
    ensures
        res is Ok ==> signed_with(token@, secret@),
        res matches Ok(c) ==> claims_of_token(token@, secret@, c@),
        res matches Ok(c) ==> hs256_claims(
            token@,
            secret@,
            checks.validate_aud,
            checks.required.deep_view(),
        ) == Some(c@),
        res matches Err((expired, _)) ==> (!expired ==> hs256_claims(
            token@,
            secret@,
            checks.validate_aud,
            checks.required.deep_view(),
        ) is None),
        !checks.validate_exp ==> (res is Err ==> hs256_claims(
            token@,
            secret@,
            checks.validate_aud,
            checks.required.deep_view(),
        ) is None),
{
    let mut validation = jsonwebtoken::Validation::new(jsonwebtoken::Algorithm::HS256);
    validation.validate_exp = checks.validate_exp;
    validation.validate_aud = checks.validate_aud;
    validation.set_required_spec_claims(&checks.required);
    let key = jsonwebtoken::DecodingKey::from_secret(secret);
    match jsonwebtoken::decode::<Box<serde_json::value::RawValue>>(token, &key, &validation) {
        Ok(data) => Ok(data.claims.get().to_string()),
        Err(e) => Err((matches!(e.kind(), jsonwebtoken::errors::ErrorKind::ExpiredSignature), e)),
    }
}

/// The `Debug` text of a token error (`format!("{:?}", e)`).
#[verifier::external_body]
fn jwt_error_text(e: &jsonwebtoken::errors::Error) -> String {
    format!("{:?}", e)
}

/// What a token check gives back: on success, the token is signed with
/// `secret`, and the claims text is the one it was signed from (for bare
/// claims text).
pub open spec fn token_check(token: Seq<char>, secret: Seq<u8>, res: Result<String, String>) -> bool {
    &&& res is Ok ==> signed_with(token, secret)
    &&& res matches Ok(c) ==> claims_of_token(token, secret, c@)
}

/// What reading a token gives back, its claims unchecked: the claims text
/// of `decode` with no claim checks.
pub open spec fn read_claims(token: Seq<char>, secret: Seq<u8>) -> Option<Seq<char>> {
    hs256_claims(token, secret, false, Seq::empty())
}

/// Checks the form and HS256 signature of a token under `secret`, without
/// checking its claims: the claims as JSON text, or the error's `Debug`
/// text. An accepted token is signed with `secret`, and one signed here from
/// bare claims text gives that text back.
pub fn read_jwt(token: &str, secret: &[u8]) -> (res: Result<String, String>)
    ensures
        res is Ok <==> read_claims(token@, secret@) is Some,
        res matches Ok(c) ==> read_claims(token@, secret@) == Some(c@),
        token_check(token@, secret@, res),
{
    let checks = ClaimChecks { validate_exp: false, validate_aud: false, required: Vec::new() };
    assert(checks.required.deep_view() =~= Seq::<Seq<char>>::empty());
    match decode_hs256(token, secret, &checks) {
        Ok(c) => Ok(c),
        Err((_, e)) => Err(jwt_error_text(&e)),
    }
}

/// The claims text of `token` under `secret` when every check of
/// `validate_jwt` but the clock's passes: `decode` with `Algorithm::HS256`,
/// refusing a token that names an audience or lacks `exp`; `None` when one
/// of those checks fails.
pub open spec fn check_claims(token: Seq<char>, secret: Seq<u8>) -> Option<Seq<char>> {
    hs256_claims(token, secret, true, seq!["exp"@])
}

/// The `Debug` text of the error for a token whose `exp` has passed.
pub open spec fn expired_text() -> Seq<char> {
    "Error(ExpiredSignature)"@
}

/// What a full token check gives back: on success the claims that the
/// checks without the clock give; a refusal of a token that passes those
/// checks is the expiry error, and nothing else.
pub open spec fn validation_outcome(token: Seq<char>, secret: Seq<u8>, res: Result<String, String>) -> bool {
    &&& token_check(token, secret, res)
    &&& res matches Ok(c) ==> check_claims(token, secret) == Some(c@)
    &&& res matches Err(m) ==> (check_claims(token, secret) is Some ==> m@ == expired_text())
}

/// Verifies an HS256 token with `secret`, its claims included (`exp` must
/// be there and must not have passed, with a leeway of 60 s): the claims
/// as JSON text, or the error's `Debug` text. An accepted token is signed
/// with `secret`, its claims are the ones that the checks without the clock
/// give, and one signed here from bare claims text gives that text back; a
/// token that passes every check but the clock's is refused only as expired.
pub fn validate_jwt(token: &str, secret: &[u8]) -> (res: Result<String, String>)
    ensures
        validation_outcome(token@, secret@, res),
{
    let checks = ClaimChecks {
        validate_exp: true,
        validate_aud: true,
        required: vec![String::from_str("exp")],
    };
    proof {
        reveal_strlit("exp");
        assert(checks.required.deep_view() =~= seq!["exp"@]);
    }
    match decode_hs256(token, secret, &checks) {
        Ok(c) => Ok(c),
        Err((expired, e)) => if expired {
            Err(String::from_str("Error(ExpiredSignature)"))
        } else {
            Err(jwt_error_text(&e))
        },
    }
}

/// A token check accepts a token only with the claims that the checks
/// without the clock give it, and refuses a token that passes those checks
/// only with the expiry error.
pub proof fn lemma_validation_refuses_only_expired(
    token: Seq<char>,
    secret: Seq<u8>,
    res: Result<String, String>,
)
    requires
        validation_outcome(token, secret, res),
    ensures
        res matches Ok(c) ==> hs256_claims(token, secret, true, seq!["exp"@]) == Some(c@),
        res matches Err(m) ==> (hs256_claims(token, secret, true, seq!["exp"@]) is Some
            ==> m@ == "Error(ExpiredSignature)"@),
        res is Ok ==> signed_with(token, secret),
{
}

/// A token signed from bare claims text that passes every check but the
/// clock's is either accepted with exactly that claims text or refused as
/// expired.
pub proof fn lemma_signed_token_validates_to_its_claims(
    claims: Seq<char>,
    secret: Seq<u8>,
    token: Seq<char>,
    res: Result<String, String>,
)
    requires
        bare_json(claims),
        hs256_token(claims, secret) == Some(token),
        hs256_claims(token, secret, true, seq!["exp"@]) is Some,
        validation_outcome(token, secret, res),
    ensures
        (res matches Ok(c) && c@ == claims) || (res matches Err(m) && m@
            == "Error(ExpiredSignature)"@),
{
}

/// A token signed from bare claims text and then accepted yields those
/// claims again.
pub proof fn lemma_sign_then_validate(claims: Seq<char>, secret: Seq<u8>, token: Seq<char>, read: Seq<char>)
    requires
        bare_json(claims),
        hs256_token(claims, secret) == Some(token),
        claims_of_token(token, secret, read),
    ensures
        read == claims,
{
}

/// A signed token holds at least two dots: one that is not so shaped is
/// refused by `read_jwt` and `validate_jwt`.
pub proof fn lemma_signed_token_has_two_dots(token: Seq<char>, secret: Seq<u8>)
    requires
        signed_with(token, secret),
    ensures
        exists|i: int, j: int| 0 <= i < j < token.len() && token[i] == '.' && token[j] == '.',
{
    let m = choose|m: Seq<char>|
        #![trigger hs256_signature(m, secret)]
        m.contains('.') && !hs256_signature(m, secret).contains('.') && token == m + seq!['.']
            + hs256_signature(m, secret);
    let i = choose|i: int| 0 <= i < m.len() && m[i] == '.';
    assert(token[i] == '.');
    assert(token[m.len() as int] == '.');
}

/// The prefix that marks a bearer token in an `Authorization` header.
pub open spec fn bearer_prefix() -> Seq<char> {
    "Bearer "@
}

/// The token in an `Authorization` header: the header with every
/// `Bearer ` taken out.
pub fn bearer_token(header: &str) -> (token: String)
    ensures
        token@ == replace_all(header@, bearer_prefix(), ""@),
{
    proof {
        reveal_strlit("Bearer ");
    }
    replace_text(header, "Bearer ", "")
}

/// A token without spaces, sent as `Bearer {token}`, is read back as itself.
pub proof fn lemma_bearer_roundtrip(token: Seq<char>)
    requires
        !token.contains(' '),
    ensures
        replace_all(bearer_prefix() + token, bearer_prefix(), ""@) == token,
{
    reveal_strlit("Bearer ");
    reveal_strlit("");
    let p = bearer_prefix();
    assert(p[6] == ' ');
    lemma_replace_leading(p, token, ""@);
    lemma_absent_by_char(p, token, ' ');
    lemma_replace_absent(token, p, ""@);
    assert(""@ + token =~= token);
}

} // verus!
