//! The documents that select what a command is about.

use bson::oid::ObjectId;
use vstd::prelude::*;

verus! {

/// A document in the store's format: named fields, each with a value.
#[verifier::external_type_specification]
#[verifier::external_body]
pub struct ExDocument(bson::Document);

/// What a field of a document holds.
pub enum FieldValue {
    /// An identifier.
    Id(ObjectId),
    /// A text.
    Text(Seq<char>),
    /// A value of any other kind.
    Other,
}

/// The fields of a document, every one of them, by name.
pub uninterp spec fn document_fields(document: bson::Document) -> Map<Seq<char>, FieldValue>;

/// No field at all.
pub open spec fn no_fields() -> Map<Seq<char>, FieldValue> {
    Map::empty()
}

/// `Document::new`: a document without fields.
#[verifier::external_body]
pub(crate) fn new_document() -> (fresh: bson::Document)
    ensures
        document_fields(fresh) == no_fields(),
{
    bson::Document::new()
}

/// `Document::insert` of an identifier: the field `key` holds `id`
/// afterwards, in place of what it held, and every other field is as it was.
#[verifier::external_body]
pub(crate) fn insert_id(document: &mut bson::Document, key: &str, id: ObjectId)
    ensures
        document_fields(*final(document)) == document_fields(*old(document)).insert(
            key@,
            FieldValue::Id(id),
        ),
{
    document.insert(key, id);
}

/// `Document::insert` of a text: the field `key` holds `text` afterwards, in
/// place of what it held, and every other field is as it was.
#[verifier::external_body]
pub(crate) fn insert_text(document: &mut bson::Document, key: &str, text: &str)
    ensures
        document_fields(*final(document)) == document_fields(*old(document)).insert(
            key@,
            FieldValue::Text(text@),
        ),
{
    document.insert(key, text);
}

} // verus!
