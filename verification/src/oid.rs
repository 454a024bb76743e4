//! Identifiers that the document store assigns.

use vstd::prelude::*;

verus! {

/// The store's 12-byte identifier. Its bytes are never read here: an
/// identifier is only kept, copied and handed back to the store.
#[verifier::external_type_specification]
#[verifier::external_body]
pub struct ExObjectId(bson::oid::ObjectId);

} // verus!
