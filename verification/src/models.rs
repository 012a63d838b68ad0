//! Domain records and the identity subsystem: users, categories, threads,
//! messages, secrets, sessions and the gateway wire types.

use vstd::prelude::*;

pub mod category;
pub mod error;
pub mod gateway;
pub mod message;
pub mod requests;
pub mod secret;
pub mod session;
pub mod thread;
pub mod user;

verus! {

use crate::models::session::Session;
use crate::models::user::User;
use crate::utils::convectors::is_hex_lower;

/// The session and user a presented bearer token resolved to.
pub struct UserCredentials(pub Session, pub User);

/// Relies on `nanoid::format` with the sixteen-character lowercase hex
/// alphabet: the result has exactly `len` characters, each drawn from
/// that alphabet.
#[verifier::external_body]
pub(crate) fn new_hex_id(len: usize) -> (r: String)
    requires
        1 <= len,
    ensures
        r@.len() == len,
        forall|i: int| 0 <= i < r@.len() ==> is_hex_lower(#[trigger] r@[i]),
{
    nanoid::format(
        nanoid::rngs::default,
        &['0', '1', '2', '3', '4', '5', '6', '7', '8', '9', 'a', 'b', 'c', 'd', 'e', 'f'],
        len,
    )
}

} // verus!
