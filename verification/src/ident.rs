//! Fresh identifiers for shards, tasks, transactions and the like.
use vstd::prelude::*;

verus! {

/// The length of the textual form of an identifier.
pub const IDENTIFIER_LEN: usize = 36;

/// Calls `uuid::Uuid::new_v4` and renders the result as text. Trusted: the
/// text is the hyphenated form, 36 characters long. Which identifier comes
/// out is left open: it is random.
#[verifier::external_body]
pub(crate) fn random_uuid() -> (id: String)
    ensures
        id@.len() == IDENTIFIER_LEN,
{
    uuid::Uuid::new_v4().to_string()
}

/// A fresh random identifier.
pub fn fresh_identifier() -> (id: String)
    ensures
        id@.len() == IDENTIFIER_LEN,
{
    random_uuid()
}

} // verus!
