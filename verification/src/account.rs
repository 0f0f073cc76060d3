//! Account records and their password checks.
use vstd::prelude::*;
use crate::text::digit_char;

verus! {

#[verifier::external_type_specification]
#[verifier::external_body]
pub struct ExBcryptError(bcrypt::BcryptError);

/// What `bcrypt::verify(password, hash)` gives back: `Some(b)` for
/// `Ok(b)`, `None` for an error.
pub uninterp spec fn bcrypt_verdict(password: Seq<char>, hash: Seq<char>) -> Option<bool>;

/// How a bcrypt hash of the given cost begins: `$2b$`, the cost in two
/// digits, `$`.
pub open spec fn bcrypt_prefix(cost: u32) -> Seq<char> {
    seq!['$', '2', 'b', '$', digit_char((cost / 10) as nat), digit_char((cost % 10) as nat), '$']
}

/// `bcrypt::hash(password, cost)`. The salt is drawn at random, so the hash
/// is not a function of the arguments; what holds of every outcome: a
/// cost outside `4..=31` is refused, and a hash that comes back is 60
/// characters long, begins with `$2b$` and the cost in two digits, and is
/// one that `bcrypt::verify` accepts for the same
/// password (it reads the cost and salt back from the hash and recomputes
/// the same digest).
#[verifier::external_body]
fn bcrypt_hash(password: &str, cost: u32) -> (res: Result<String, bcrypt::BcryptError>)
    ensures
        !(4 <= cost <= 31) ==> res is Err,
        res matches Ok(h) ==> bcrypt_verdict(password@, h@) == Some(true),
        res matches Ok(h) ==> h@.len() == 60,
        res matches Ok(h) ==> h@.take(7) == bcrypt_prefix(cost),
{
    bcrypt::hash(password, cost)
}

/// Whether `hash` has the shape bcrypt reads: 60 ASCII characters.
pub open spec fn bcrypt_shaped(hash: Seq<char>) -> bool {
    hash.len() == 60 && forall|i: int| 0 <= i < hash.len() ==> (#[trigger] hash[i] as u32) < 128
}

/// `bcrypt::verify(password, hash)`, a function of its arguments alone,
/// named by `bcrypt_verdict`. Text that is not 60 ASCII characters is
/// refused with an error before anything is computed.
#[verifier::external_body]
fn bcrypt_verify(password: &str, hash: &str) -> (res: Result<bool, bcrypt::BcryptError>)
    ensures
        match res {
            Ok(b) => bcrypt_verdict(password@, hash@) == Some(b),
            Err(_) => bcrypt_verdict(password@, hash@) is None,
        },
        !bcrypt_shaped(hash@) ==> res is Err,
{
    bcrypt::verify(password, hash)
}

/// The body of a registration or login request.
#[derive(Clone, Debug)]
pub struct CreateUserRequest {
    pub username: String,
    pub password: String,
}

/// The bcrypt cost with which passwords are hashed.
pub const PASSWORD_COST: u32 = 10;

/// Why an account could not be made.
#[derive(Debug)]
pub enum AccountError {
    /// bcrypt could not hash the password (its source of random salt failed).
    Hashing,
}

/// A stored account.
#[derive(Clone, Debug, Default)]
pub struct User {
    /// The record id that the database gave it; `None` before it is stored.
    pub id: Option<String>,
    pub username: String,
    /// The bcrypt hash of the password, never the password itself.
    pub password: String,
    /// When the account was made, in RFC 3339.
    pub created_at: String,
    /// Whether the account is marked deleted.
    pub is_delete: bool,
}

impl User {
    /// Whether `password` is the one whose hash the account holds.
    pub open spec fn accepts(self, password: Seq<char>) -> bool {
        bcrypt_verdict(password, self.password@) == Some(true)
    }

    /// A new, not yet stored account named `username` that accepts
    /// `password`, created at the time written in `created_at`.
    pub fn new(username: String, password: String, created_at: String) -> (res: Result<User, AccountError>)
        ensures
            res matches Ok(u) ==> {
                &&& u.id is None
                &&& u.username == username
                &&& u.accepts(password@)
                &&& u.password@.len() == 60
                &&& u.password@.take(7) == bcrypt_prefix(PASSWORD_COST)
                &&& u.created_at == created_at
                &&& !u.is_delete
            },
            res matches Err(e) ==> e is Hashing,
    {
        let hashed = bcrypt_hash(password.as_str(), PASSWORD_COST);
        User::with_hash(username, hashed, created_at)
    }

    /// The new, not yet stored account named `username`, created at
    /// `created_at`, from the outcome of hashing its password: the hash
    /// that came back, or `AccountError::Hashing` when hashing failed.
    pub fn with_hash(
        username: String,
        hashed: Result<String, bcrypt::BcryptError>,
        created_at: String,
    ) -> (res: Result<User, AccountError>)
        ensures
            match hashed {
                Ok(h) => res matches Ok(u) && u.id is None && u.username == username
                    && u.password == h && u.created_at == created_at && !u.is_delete,
                Err(_) => res matches Err(e) && e is Hashing,
            },
    {
        match hashed {
            Ok(hash) => Ok(User { id: None, username, password: hash, created_at, is_delete: false }),
            Err(_) => Err(AccountError::Hashing),
        }
    }

    /// Whether `password` matches the stored hash; a hash that bcrypt
    /// cannot read matches nothing.
    pub fn verify_password(&self, password: &str) -> (ok: bool)
        ensures
            ok == self.accepts(password@),
            !bcrypt_shaped(self.password@) ==> !ok,
    {
        match bcrypt_verify(password, self.password.as_str()) {
            Ok(b) => b,
            Err(_) => false,
        }
    }
}

/// The account that a lookup found, if it is a stored one: a record
/// without an id stands for "no such account".
pub fn existing_user<E>(found: Result<User, E>) -> (res: Result<Option<User>, E>)
    ensures
        match found {
            Ok(u) => if u.id is Some {
                res == Ok::<Option<User>, E>(Some(u))
            } else {
                res == Ok::<Option<User>, E>(None)
            },
            Err(e) => res == Err::<Option<User>, E>(e),
        },
{
    match found {
        Ok(user) => {
            if user.id.is_some() {
                Ok(Some(user))
            } else {
                Ok(None)
            }
        },
        Err(e) => Err(e),
    }
}

/// The account that a lookup by name found, if it is a stored one of
/// exactly that name: a record without an id, or of another name, stands
/// for "no such account".
pub fn existing_user_named<E>(found: Result<User, E>, username: &str) -> (res: Result<Option<User>, E>)
    ensures
        match found {
            Ok(u) => if u.id is Some && u.username@ == username@ {
                res == Ok::<Option<User>, E>(Some(u))
            } else {
                res == Ok::<Option<User>, E>(None)
            },
            Err(e) => res == Err::<Option<User>, E>(e),
        },
        res matches Ok(Some(u)) ==> u.username@ == username@,
{
    match found {
        Ok(user) => {
            let wanted = String::from_str(username);
            if user.id.is_some() && user.username == wanted {
                Ok(Some(user))
            } else {
                Ok(None)
            }
        },
        Err(e) => Err(e),
    }
}

} // verus!
