//! What the repository asks of the store, and what the store answers.
//!
//! The repository sends nothing itself. It names each command; the caller
//! runs it against the store and reports the reply in one of the forms below.

use crate::collections::Collections;
use crate::document::{
    document_fields, insert_id, insert_text, new_document, no_fields, FieldValue,
};
use bson::oid::ObjectId;
use vstd::prelude::*;

verus! {

/// The name, in stored documents, of the field that holds the identifier.
pub const ID_FIELD: &'static str = "_id";

/// The name, in stored documents, of the field that holds the name.
pub const NAME_FIELD: &'static str = "name";

/// The name, in stored documents of lists, of the field that holds the
/// identifier of the owning user.
pub const USER_FIELD: &'static str = "userId";

/// Which documents of a collection a command is about.
#[derive(Debug, PartialEq)]
pub enum Filter {
    /// The document with this identifier.
    ById(ObjectId),
    /// The documents with this name.
    ByName(String),
    /// The documents owned by this user.
    ByUser(ObjectId),
}

impl Clone for Filter {
    fn clone(&self) -> (copy: Self)
        ensures
            copy == *self,
    {
        match self {
            Filter::ById(id) => Filter::ById(*id),
            Filter::ByName(name) => Filter::ByName(name.clone()),
            Filter::ByUser(id) => Filter::ByUser(*id),
        }
    }
}

impl Filter {
    /// The document field that the filter compares.
    pub open spec fn field(self) -> Seq<char> {
        match self {
            Filter::ById(_) => ID_FIELD@,
            Filter::ByName(_) => NAME_FIELD@,
            Filter::ByUser(_) => USER_FIELD@,
        }
    }

    /// The value that the field must hold for a document to be selected.
    pub open spec fn value(self) -> FieldValue {
        match self {
            Filter::ById(id) => FieldValue::Id(id),
            Filter::ByName(name) => FieldValue::Text(name@),
            Filter::ByUser(user_id) => FieldValue::Id(user_id),
        }
    }

    /// The filter as the store takes it: a document with one field and no
    /// other, the one that the filter compares, holding the value that it
    /// must have.
    pub fn to_document(&self) -> (document: bson::Document)
        ensures
            document_fields(document) == no_fields().insert(self.field(), self.value()),
            document_fields(document).dom() == set![self.field()],
            document_fields(document)[self.field()] == self.value(),
    {
        let mut document = new_document();
        match self {
            Filter::ById(id) => insert_id(&mut document, ID_FIELD, *id),
            Filter::ByName(name) => insert_text(&mut document, NAME_FIELD, name.as_str()),
            Filter::ByUser(user_id) => insert_id(&mut document, USER_FIELD, *user_id),
        }
        assert(document_fields(document).dom() =~= set![self.field()]);
        document
    }
}

/// One request to the store.
#[derive(Debug)]
pub enum Command<'a, T> {
    /// Store `document` as a new document of `collection`.
    InsertOne { collection: Collections, document: &'a T },
    /// Look up one document of `collection` that matches `filter`.
    FindOne { collection: Collections, filter: Filter },
    /// Look up every document of `collection` that matches `filter`.
    Find { collection: Collections, filter: Filter },
    /// Put `document` in the place of the document of `collection` that
    /// matches `filter`.
    ReplaceOne { collection: Collections, filter: Filter, document: &'a T },
    /// Remove one document of `collection` that matches `filter`.
    DeleteOne { collection: Collections, filter: Filter },
}

/// The command that stores a new document.
pub open spec fn insert_one<'a, T>(collection: Collections, document: &'a T) -> Command<'a, T> {
    Command::InsertOne { collection, document }
}

/// The command that looks every matching document up.
pub open spec fn find<'a, T>(collection: Collections, filter: Filter) -> Command<'a, T> {
    Command::Find { collection, filter }
}

/// The command that overwrites one document.
pub open spec fn replace_one<'a, T>(
    collection: Collections,
    filter: Filter,
    document: &'a T,
) -> Command<'a, T> {
    Command::ReplaceOne { collection, filter, document }
}

/// The command that removes one document.
pub open spec fn delete_one<'a, T>(collection: Collections, filter: Filter) -> Command<'a, T> {
    Command::DeleteOne { collection, filter }
}

/// The command that looks one document up.
pub open spec fn find_one<'a, T>(collection: Collections, filter: Filter) -> Command<'a, T> {
    Command::FindOne { collection, filter }
}

/// The identifier that the store reports for an inserted document.
#[derive(Debug)]
pub enum InsertedId {
    /// An object identifier, the kind that is expected.
    ObjectId(ObjectId),
    /// A value of any other kind.
    Other,
}

/// The reply to `InsertOne`.
#[derive(Debug)]
pub enum InsertReply {
    /// The document could not be written in the store's format; nothing was
    /// sent.
    NotSerialized(bson::ser::Error),
    /// The store, or the connection to it, failed.
    Failed(mongodb::error::Error),
    /// The document was stored under the identifier given.
    Inserted(InsertedId),
}

/// The reply to `FindOne`.
#[derive(Debug)]
pub enum FetchReply<T> {
    /// The store, or the connection to it, failed.
    Failed(mongodb::error::Error),
    /// No document matches.
    Missing,
    /// A document matches, but it does not describe an entity.
    Undecodable(bson::de::Error),
    /// The entity that the matching document describes.
    Found(T),
}

/// One document of a reply to `Find`.
#[derive(Debug)]
pub enum Record<T> {
    /// The store failed while handing this document out.
    Failed(mongodb::error::Error),
    /// The document does not describe an entity.
    Undecodable(bson::de::Error),
    /// The entity that the document describes.
    Decoded(T),
}

/// The reply to `Find`.
#[derive(Debug)]
pub enum FindReply<T> {
    /// The store, or the connection to it, failed before any document came.
    Failed(mongodb::error::Error),
    /// The matching documents, in the order in which the store handed them
    /// out.
    Records(Vec<Record<T>>),
}

/// The reply to `ReplaceOne`.
#[derive(Debug)]
pub enum ReplaceReply {
    /// The document could not be written in the store's format; nothing was
    /// sent.
    NotSerialized(bson::ser::Error),
    /// The store, or the connection to it, failed.
    Failed(mongodb::error::Error),
    /// The store took the command. It says so also where no document matched.
    Replaced,
}

/// The reply to `DeleteOne`.
#[derive(Debug)]
pub enum DeleteReply {
    /// The store, or the connection to it, failed.
    Failed(mongodb::error::Error),
    /// The number of documents that the store removed.
    Deleted(u64),
}

} // verus!
