//! The error payload serialized to REST clients.

use vstd::prelude::*;

verus! {

/// Machine-readable code and human-readable description of a failed
/// request.
pub struct Error {
    pub code: i32,
    pub description: String,
}

} // verus!
