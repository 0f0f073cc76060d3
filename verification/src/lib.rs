//! Verified core of a small photo-sharing web backend: account records and
//! password checks, token claims and the authorization flow, database query
//! text, and the replies that each route gives.
use vstd::prelude::*;

pub mod account;
pub mod auth;
pub mod query;
pub mod reply;
pub mod settings;
pub mod text;
pub mod token;
pub mod upload;

verus! {

} // verus!
