//! What can go wrong in the repository.

use crate::collections::Collections;
use bson::oid::ObjectId;
use vstd::prelude::*;
use vstd::std_specs::convert::FromSpecImpl;

verus! {

/// The store client's error: the connection or the store itself failed.
#[verifier::external_type_specification]
#[verifier::external_body]
pub struct ExStoreError(mongodb::error::Error);

/// The error of turning an entity into a document.
#[verifier::external_type_specification]
#[verifier::external_body]
pub struct ExSerializeError(bson::ser::Error);

/// The error of turning a document back into an entity.
#[verifier::external_type_specification]
#[verifier::external_body]
pub struct ExDeserializeError(bson::de::Error);

/// A failure of a repository operation. None is ever recovered from: each is
/// handed to the caller as it came.
#[derive(Debug)]
pub enum RepoError {
    /// The store reported an identifier for an inserted document that is not
    /// an object identifier.
    NotObjectId,
    /// The store, or the connection to it, failed.
    MongoError(mongodb::error::Error),
    /// An entity could not be turned into a document.
    BsonSer(bson::ser::Error),
    /// A stored document could not be turned back into an entity.
    BsonDe(bson::de::Error),
    /// An object that an operation needs is not in the collection.
    ObjectNotFound(ObjectId, Collections),
}

impl From<mongodb::error::Error> for RepoError {
    fn from(error: mongodb::error::Error) -> (converted: RepoError) {
        RepoError::MongoError(error)
    }
}

impl FromSpecImpl<mongodb::error::Error> for RepoError {
    open spec fn obeys_from_spec() -> bool {
        true
    }

    open spec fn from_spec(error: mongodb::error::Error) -> RepoError {
        RepoError::MongoError(error)
    }
}

impl From<bson::ser::Error> for RepoError {
    fn from(error: bson::ser::Error) -> (converted: RepoError) {
        RepoError::BsonSer(error)
    }
}

impl FromSpecImpl<bson::ser::Error> for RepoError {
    open spec fn obeys_from_spec() -> bool {
        true
    }

    open spec fn from_spec(error: bson::ser::Error) -> RepoError {
        RepoError::BsonSer(error)
    }
}

impl From<bson::de::Error> for RepoError {
    fn from(error: bson::de::Error) -> (converted: RepoError) {
        RepoError::BsonDe(error)
    }
}

impl FromSpecImpl<bson::de::Error> for RepoError {
    open spec fn obeys_from_spec() -> bool {
        true
    }

    open spec fn from_spec(error: bson::de::Error) -> RepoError {
        RepoError::BsonDe(error)
    }
}

} // verus!
