//! What the repository guarantees against a store that keeps what it is
//! given.
//!
//! The documents of a collection are modelled as a map from identifier to
//! entity. A faithful store answers a command from that map and changes
//! nothing else. The statements below join the repository's steps to such a
//! store; none of them says that a real store is faithful.

use crate::collections::Collections;
use crate::command::{DeleteReply, FetchReply, Filter, FindReply, InsertReply, InsertedId, Record,
    ReplaceReply};
use crate::error::RepoError;
use crate::list::{List, ListItem};
use crate::repo::{
    append_outcome, delete_outcome, fetch_outcome, find_outcome, insert_outcome, replace_outcome,
    Lookup, Replacement,
};
use crate::store::Store;
use crate::user::User;
use bson::oid::ObjectId;
use vstd::prelude::*;

verus! {

/// An entity that the store keeps under an identifier of its own choosing.
pub trait Entity: Sized {
    /// The identifier, once the entity is stored.
    spec fn id(self) -> Option<ObjectId>;

    /// The entity as the store keeps it under `id`: every field as it was,
    /// but for the identifier.
    spec fn persisted(self, id: ObjectId) -> Self;

    /// The entity kept under `id` has that identifier.
    proof fn lemma_persisted_has_id(self, id: ObjectId)
        ensures
            self.persisted(id).id() == Some(id),
    ;
}

impl Entity for User {
    open spec fn id(self) -> Option<ObjectId> {
        self._id
    }

    open spec fn persisted(self, id: ObjectId) -> User {
        User { _id: Some(id), ..self }
    }

    proof fn lemma_persisted_has_id(self, id: ObjectId) {
    }
}

impl Entity for Store {
    open spec fn id(self) -> Option<ObjectId> {
        self._id
    }

    open spec fn persisted(self, id: ObjectId) -> Store {
        Store { _id: Some(id), ..self }
    }

    proof fn lemma_persisted_has_id(self, id: ObjectId) {
    }
}

impl Entity for List {
    open spec fn id(self) -> Option<ObjectId> {
        self._id
    }

    open spec fn persisted(self, id: ObjectId) -> List {
        List { _id: Some(id), ..self }
    }

    proof fn lemma_persisted_has_id(self, id: ObjectId) {
    }
}

/// A faithful store's reply to the lookup of the document with `id`.
pub open spec fn fetch_reply<T>(documents: Map<ObjectId, T>, id: ObjectId) -> FetchReply<T> {
    if documents.contains_key(id) {
        FetchReply::Found(documents[id])
    } else {
        FetchReply::Missing
    }
}

/// A faithful store's reply to the removal of the document with `id`.
pub open spec fn delete_reply<T>(documents: Map<ObjectId, T>, id: ObjectId) -> DeleteReply {
    if documents.contains_key(id) {
        DeleteReply::Deleted(1)
    } else {
        DeleteReply::Deleted(0)
    }
}

/// The documents of a faithful store after the replacement of the document
/// with `id` by `document`. The new document takes the place and the
/// identifier of the old one; where there is none, nothing changes.
pub open spec fn after_replace<T: Entity>(
    documents: Map<ObjectId, T>,
    id: ObjectId,
    document: T,
) -> Map<ObjectId, T> {
    if documents.contains_key(id) {
        documents.insert(id, document.persisted(id))
    } else {
        documents
    }
}

/// What a lookup returns from a faithful store.
pub open spec fn lookup_result<T>(documents: Map<ObjectId, T>, lookup: Lookup) -> Result<
    Option<T>,
    RepoError,
>
    recommends
        lookup.filter is ById,
{
    fetch_outcome(fetch_reply(documents, lookup.filter->ById_0))
}

/// What the lookup of the document with `id` returns from a faithful store.
pub open spec fn fetch_result<T>(
    documents: Map<ObjectId, T>,
    collection: Collections,
    id: ObjectId,
) -> Result<Option<T>, RepoError> {
    lookup_result(documents, Lookup { collection, filter: Filter::ById(id) })
}

/// What an insert returns from a faithful store that keeps the new document
/// as `stored` under `id`.
pub open spec fn insert_result<T>(
    documents: Map<ObjectId, T>,
    collection: Collections,
    id: ObjectId,
    stored: T,
) -> Result<Option<T>, RepoError> {
    match insert_outcome(collection, InsertReply::Inserted(InsertedId::ObjectId(id))) {
        Ok(lookup) => lookup_result(documents.insert(id, stored), lookup),
        Err(error) => Err(error),
    }
}

/// What a replacement returns from a faithful store.
pub open spec fn replace_result<T: Entity>(
    documents: Map<ObjectId, T>,
    replacement: Replacement<T>,
) -> Result<Option<T>, RepoError> {
    match replace_outcome(replacement.collection, replacement.id, ReplaceReply::Replaced) {
        Ok(lookup) => lookup_result(
            after_replace(documents, replacement.id, replacement.document),
            lookup,
        ),
        Err(error) => Err(error),
    }
}

/// What the removal of the document with `id` returns from a faithful
/// store.
pub open spec fn delete_result<T>(documents: Map<ObjectId, T>, id: ObjectId) -> Result<
    u64,
    RepoError,
> {
    delete_outcome(delete_reply(documents, id))
}

/// An insert returns the document as the store keeps it, whatever the store
/// made of what was sent, and a lookup by the new identifier then returns
/// the same.
pub proof fn lemma_insert_returns_what_is_stored<T>(
    documents: Map<ObjectId, T>,
    collection: Collections,
    id: ObjectId,
    stored: T,
)
    ensures
        insert_result(documents, collection, id, stored) == Ok::<Option<T>, RepoError>(
            Some(stored),
        ),
        fetch_result(documents.insert(id, stored), collection, id) == insert_result(
            documents,
            collection,
            id,
            stored,
        ),
{
}

/// Round trip: where the store keeps an inserted entity as it was sent, under
/// a new identifier, the insert returns that entity with the identifier set
/// and every other field unchanged, and a lookup by the identifier returns
/// what the insert returned.
pub proof fn lemma_round_trip<T: Entity>(
    documents: Map<ObjectId, T>,
    collection: Collections,
    document: T,
    id: ObjectId,
)
    ensures
        insert_result(documents, collection, id, document.persisted(id)) == Ok::<
            Option<T>,
            RepoError,
        >(Some(document.persisted(id))),
        fetch_result(documents.insert(id, document.persisted(id)), collection, id)
            == insert_result(documents, collection, id, document.persisted(id)),
        document.persisted(id).id() == Some(id),
{
    document.lemma_persisted_has_id(id);
}

/// A replacement returns the document as the store holds it afterwards:
/// the new one, under the identifier that the old one had, where the
/// identifier was in use; nothing where it was not, and then the store is
/// as it was.
pub proof fn lemma_replace_returns_what_is_stored<T: Entity>(
    documents: Map<ObjectId, T>,
    replacement: Replacement<T>,
)
    ensures
        documents.contains_key(replacement.id) ==> replace_result(documents, replacement) == Ok::<
            Option<T>,
            RepoError,
        >(Some(replacement.document.persisted(replacement.id))),
        !documents.contains_key(replacement.id) ==> replace_result(documents, replacement)
            == Ok::<Option<T>, RepoError>(None),
        !documents.contains_key(replacement.id) ==> after_replace(
            documents,
            replacement.id,
            replacement.document,
        ) == documents,
{
}

/// The identifier is stable under replacement: the document that takes the
/// place of another is kept under the identifier of the one it replaces,
/// whatever identifier it was sent with, and no other document changes.
pub proof fn lemma_replace_keeps_identifier<T: Entity>(
    documents: Map<ObjectId, T>,
    id: ObjectId,
    document: T,
)
    requires
        documents.contains_key(id),
    ensures
        after_replace(documents, id, document).dom() == documents.dom(),
        after_replace(documents, id, document)[id].id() == Some(id),
        forall|other: ObjectId|
            other != id && documents.contains_key(other) ==> #[trigger] after_replace(
                documents,
                id,
                document,
            )[other] == documents[other],
{
    document.lemma_persisted_has_id(id);
    assert(after_replace(documents, id, document).dom() =~= documents.dom());
}

/// A removal returns 1 where the identifier was in use just before and 0
/// where it was not; a second removal of the same identifier returns 0.
pub proof fn lemma_delete_counts<T>(documents: Map<ObjectId, T>, id: ObjectId)
    ensures
        documents.contains_key(id) ==> delete_result(documents, id) == Ok::<u64, RepoError>(1),
        !documents.contains_key(id) ==> delete_result(documents, id) == Ok::<u64, RepoError>(0),
        delete_result(documents.remove(id), id) == Ok::<u64, RepoError>(0),
{
}

/// After a removal a lookup by the same identifier finds nothing.
pub proof fn lemma_deleted_is_absent<T>(
    documents: Map<ObjectId, T>,
    collection: Collections,
    id: ObjectId,
)
    ensures
        fetch_result(documents.remove(id), collection, id) == Ok::<Option<T>, RepoError>(None),
{
}

/// Adding an item to a stored list returns the list with the items it had,
/// in their order, and the new item behind them.
pub proof fn lemma_append_keeps_order(
    lists: Map<ObjectId, List>,
    list_id: ObjectId,
    item: ListItem,
    outcome: Result<Replacement<List>, RepoError>,
)
    requires
        lists.contains_key(list_id),
        append_outcome(list_id, item, fetch_reply(lists, list_id), outcome),
    ensures
        outcome is Ok,
        replace_result(lists, outcome->Ok_0) matches Ok(Some(updated)) && updated.items@
            == lists[list_id].items@.push(item) && updated._id == Some(list_id) && updated.name
            == lists[list_id].name && updated.user_id == lists[list_id].user_id,
{
}

/// A list that is inserted and then given one more item comes back with the
/// items it was inserted with, in their order, and the new item behind them.
pub proof fn lemma_insert_then_append(
    lists: Map<ObjectId, List>,
    list: List,
    list_id: ObjectId,
    item: ListItem,
    outcome: Result<Replacement<List>, RepoError>,
)
    requires
        append_outcome(
            list_id,
            item,
            fetch_reply(lists.insert(list_id, list.persisted(list_id)), list_id),
            outcome,
        ),
    ensures
        insert_result(lists, Collections::Lists, list_id, list.persisted(list_id)) matches Ok(
            Some(inserted),
        ) && inserted.items@ == list.items@,
        outcome is Ok,
        replace_result(lists.insert(list_id, list.persisted(list_id)), outcome->Ok_0) matches Ok(
            Some(updated),
        ) && updated.items@ == list.items@.push(item) && updated._id == Some(list_id),
{
}

/// Adding an item to a list that is not stored fails with `ObjectNotFound`
/// for that identifier and the collection of lists, and sends nothing more.
pub proof fn lemma_append_to_missing_list(
    lists: Map<ObjectId, List>,
    list_id: ObjectId,
    item: ListItem,
    outcome: Result<Replacement<List>, RepoError>,
)
    requires
        !lists.contains_key(list_id),
        append_outcome(list_id, item, fetch_reply(lists, list_id), outcome),
    ensures
        outcome == Err::<Replacement<List>, RepoError>(
            RepoError::ObjectNotFound(list_id, Collections::Lists),
        ),
{
}

/// `ObjectNotFound` is kept for operations that need an object to be there:
/// a lookup, a removal and a listing never fail with it, whatever the store
/// replies, since for them absence is a result.
pub proof fn lemma_absence_is_no_failure<T>(
    fetched: FetchReply<T>,
    deleted: DeleteReply,
    found: FindReply<T>,
)
    ensures
        !(fetch_outcome(fetched) matches Err(RepoError::ObjectNotFound(_, _))),
        !(delete_outcome(deleted) matches Err(RepoError::ObjectNotFound(_, _))),
        !(find_outcome(found) matches Err(RepoError::ObjectNotFound(_, _))),
        fetched is Missing ==> fetch_outcome(fetched) == Ok::<Option<T>, RepoError>(None),
{
}

/// Whether a filter selects a list.
pub open spec fn selects(filter: Filter, list: List) -> bool {
    match filter {
        Filter::ById(id) => list._id == Some(id),
        Filter::ByName(name) => list.name@ == name@,
        Filter::ByUser(user_id) => list.user_id == user_id,
    }
}

/// `records` is a faithful store's answer to the listing of the lists that
/// `filter` selects: each record is a stored list that the filter selects,
/// and each such list is among the records.
pub open spec fn listing_reply(lists: Map<ObjectId, List>, filter: Filter, records: Seq<
    Record<List>,
>) -> bool {
    &&& forall|i: int|
        0 <= i < records.len() ==> (#[trigger] records[i] matches Record::Decoded(list)
            && selects(filter, list) && lists.contains_value(list))
    &&& forall|id: ObjectId|
        lists.contains_key(id) && selects(filter, #[trigger] lists[id]) ==> records.contains(
            Record::Decoded(lists[id]),
        )
}

/// The lists of a user: the listing returns the stored lists whose owner is
/// the user, each as a success, and no other entry, however many lists the
/// store holds.
pub proof fn lemma_listing_is_exact(
    lists: Map<ObjectId, List>,
    user_id: ObjectId,
    reply: FindReply<List>,
)
    requires
        reply matches FindReply::Records(records) && listing_reply(
            lists,
            Filter::ByUser(user_id),
            records@,
        ),
    ensures
        find_outcome(reply) matches Ok(entries) && {
            &&& forall|i: int|
                0 <= i < entries.len() ==> (#[trigger] entries[i] matches Ok(list)
                    && list.user_id == user_id && lists.contains_value(list))
            &&& forall|id: ObjectId|
                lists.contains_key(id) && (#[trigger] lists[id]).user_id == user_id
                    ==> entries.contains(Ok(lists[id]))
        },
{
    let records = reply->Records_0@;
    let entries = find_outcome(reply)->Ok_0;
    assert forall|i: int| 0 <= i < entries.len() implies (#[trigger] entries[i] matches Ok(list)
        && list.user_id == user_id && lists.contains_value(list)) by {
        assert(records[i] is Decoded);
    }
    assert forall|id: ObjectId|
        lists.contains_key(id) && (#[trigger] lists[id]).user_id == user_id implies entries.contains(
        Ok(lists[id]),
    ) by {
        assert(selects(Filter::ByUser(user_id), lists[id]));
        let record = Record::Decoded(lists[id]);
        assert(records.contains(record));
        let i = choose|i: int| 0 <= i < records.len() && records[i] == record;
        assert(entries[i] == Ok::<List, RepoError>(lists[id]));
    }
}

} // verus!
