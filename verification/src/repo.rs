//! The document repository: typed insert, fetch, replace and delete against
//! the collections of a document store.
//!
//! Every operation is a short exchange with the store. A method of [`Repo`]
//! opens the exchange and returns its first step. A step names the command to
//! send and, given the store's reply, either fails, ends with the result, or
//! names the step that follows. What is written is read back before it is
//! returned, so the caller sees what the store holds, not what was sent.

pub use crate::collections::Collections;
use crate::command::{
    delete_one, find, find_one, insert_one, replace_one, Command, DeleteReply, FetchReply, Filter,
    FindReply, InsertReply, InsertedId, Record, ReplaceReply,
};
pub use crate::error::RepoError;
use crate::list::{List, ListItem};
use crate::store::Store;
use crate::user::User;
use bson::oid::ObjectId;
use vstd::prelude::*;

verus! {

/// The result of looking one document up, given the store's reply: the
/// entity found, nothing where no document matches, else the failure.
pub open spec fn fetch_outcome<T>(reply: FetchReply<T>) -> Result<Option<T>, RepoError> {
    match reply {
        FetchReply::Failed(error) => Err(RepoError::MongoError(error)),
        FetchReply::Missing => Ok(None),
        FetchReply::Undecodable(error) => Err(RepoError::BsonDe(error)),
        FetchReply::Found(document) => Ok(Some(document)),
    }
}

/// A lookup of one document: the step that waits for the reply to
/// `FindOne`. It ends an exchange.
#[derive(Debug)]
pub struct Lookup {
    pub collection: Collections,
    pub filter: Filter,
}

impl Lookup {
    /// The command to send: look up one document that matches the filter.
    pub fn command<'a, T>(&self) -> (command: Command<'a, T>)
        ensures
            command == find_one::<T>(self.collection, self.filter),
    {
        Command::FindOne { collection: self.collection, filter: self.filter.clone() }
    }

    /// Ends the lookup with the store's reply. Absence is a result, not a
    /// failure.
    pub fn fetched<T>(self, reply: FetchReply<T>) -> (outcome: Result<Option<T>, RepoError>)
        ensures
            outcome == fetch_outcome(reply),
    {
        match reply {
            FetchReply::Failed(error) => Err(RepoError::from(error)),
            FetchReply::Missing => Ok(None),
            FetchReply::Undecodable(error) => Err(RepoError::from(error)),
            FetchReply::Found(document) => Ok(Some(document)),
        }
    }
}

/// The step after an insert, given the store's reply: a lookup of the new
/// document by the identifier that the store assigned, or the failure.
pub open spec fn insert_outcome(collection: Collections, reply: InsertReply) -> Result<
    Lookup,
    RepoError,
> {
    match reply {
        InsertReply::NotSerialized(error) => Err(RepoError::BsonSer(error)),
        InsertReply::Failed(error) => Err(RepoError::MongoError(error)),
        InsertReply::Inserted(InsertedId::Other) => Err(RepoError::NotObjectId),
        InsertReply::Inserted(InsertedId::ObjectId(id)) => Ok(
            Lookup { collection, filter: Filter::ById(id) },
        ),
    }
}

/// An insert: the step that waits for the reply to `InsertOne`.
#[derive(Debug)]
pub struct Insertion<'a, T> {
    pub collection: Collections,
    pub document: &'a T,
}

impl<'a, T> Insertion<'a, T> {
    /// The command to send: store the document in the collection.
    pub fn command(&self) -> (command: Command<'a, T>)
        ensures
            command == insert_one(self.collection, self.document),
    {
        Command::InsertOne { collection: self.collection, document: self.document }
    }

    /// Takes the store's reply. Where the store reports an object identifier
    /// for the new document, the next step reads that document back; any
    /// other identifier, and any failure, ends the exchange.
    pub fn inserted(self, reply: InsertReply) -> (outcome: Result<Lookup, RepoError>)
        ensures
            outcome == insert_outcome(self.collection, reply),
    {
        match reply {
            InsertReply::NotSerialized(error) => Err(RepoError::from(error)),
            InsertReply::Failed(error) => Err(RepoError::from(error)),
            InsertReply::Inserted(inserted_id) => match inserted_id {
                InsertedId::ObjectId(id) => Ok(
                    Lookup { collection: self.collection, filter: Filter::ById(id) },
                ),
                InsertedId::Other => Err(RepoError::NotObjectId),
            },
        }
    }
}

/// The step after a replacement, given the store's reply: a lookup of the
/// document with the same identifier, or the failure.
pub open spec fn replace_outcome(collection: Collections, id: ObjectId, reply: ReplaceReply)
    -> Result<Lookup, RepoError> {
    match reply {
        ReplaceReply::NotSerialized(error) => Err(RepoError::BsonSer(error)),
        ReplaceReply::Failed(error) => Err(RepoError::MongoError(error)),
        ReplaceReply::Replaced => Ok(Lookup { collection, filter: Filter::ById(id) }),
    }
}

/// A replacement: the step that waits for the reply to `ReplaceOne`.
#[derive(Debug)]
pub struct Replacement<T> {
    pub collection: Collections,
    pub id: ObjectId,
    pub document: T,
}

impl<T> Replacement<T> {
    /// The command to send: put the document in the place of the one with
    /// the identifier.
    pub fn command<'a>(&'a self) -> (command: Command<'a, T>)
        ensures
            command == replace_one(self.collection, Filter::ById(self.id), &self.document),
    {
        Command::ReplaceOne {
            collection: self.collection,
            filter: Filter::ById(self.id),
            document: &self.document,
        }
    }

    /// Takes the store's reply. Where the store took the command, the next
    /// step reads the document back by the same identifier; whether a
    /// document was there to be replaced is not asked.
    pub fn replaced(self, reply: ReplaceReply) -> (outcome: Result<Lookup, RepoError>)
        ensures
            outcome == replace_outcome(self.collection, self.id, reply),
    {
        match reply {
            ReplaceReply::NotSerialized(error) => Err(RepoError::from(error)),
            ReplaceReply::Failed(error) => Err(RepoError::from(error)),
            ReplaceReply::Replaced => Ok(
                Lookup { collection: self.collection, filter: Filter::ById(self.id) },
            ),
        }
    }
}

/// The result of a removal, given the store's reply: the number of documents
/// that the store removed, or the failure.
pub open spec fn delete_outcome(reply: DeleteReply) -> Result<u64, RepoError> {
    match reply {
        DeleteReply::Failed(error) => Err(RepoError::MongoError(error)),
        DeleteReply::Deleted(count) => Ok(count),
    }
}

/// A removal: the step that waits for the reply to `DeleteOne`. It ends an
/// exchange.
#[derive(Debug)]
pub struct Removal {
    pub collection: Collections,
    pub id: ObjectId,
}

impl Removal {
    /// The command to send: remove the document with the identifier.
    pub fn command<'a, T>(&self) -> (command: Command<'a, T>)
        ensures
            command == delete_one::<T>(self.collection, Filter::ById(self.id)),
    {
        Command::DeleteOne { collection: self.collection, filter: Filter::ById(self.id) }
    }

    /// Ends the removal with the store's reply. That no document matched is
    /// a count of zero, not a failure.
    pub fn deleted(self, reply: DeleteReply) -> (outcome: Result<u64, RepoError>)
        ensures
            outcome == delete_outcome(reply),
    {
        match reply {
            DeleteReply::Failed(error) => Err(RepoError::from(error)),
            DeleteReply::Deleted(count) => Ok(count),
        }
    }
}

/// What one document of a listing comes to: the entity, or the failure that
/// took its place.
pub open spec fn record_outcome<T>(record: Record<T>) -> Result<T, RepoError> {
    match record {
        Record::Failed(error) => Err(RepoError::MongoError(error)),
        Record::Undecodable(error) => Err(RepoError::BsonDe(error)),
        Record::Decoded(document) => Ok(document),
    }
}

/// The result of a listing, given the store's reply: one entry for each
/// document, in the store's order, or the failure that kept any from coming.
pub open spec fn find_outcome<T>(reply: FindReply<T>) -> Result<
    Seq<Result<T, RepoError>>,
    RepoError,
> {
    match reply {
        FindReply::Failed(error) => Err(RepoError::MongoError(error)),
        FindReply::Records(records) => Ok(
            records@.map_values(|record: Record<T>| record_outcome(record)),
        ),
    }
}

/// The entry for one document of a listing.
pub fn decoded<T>(record: Record<T>) -> (entry: Result<T, RepoError>)
    ensures
        entry == record_outcome(record),
{
    match record {
        Record::Failed(error) => Err(RepoError::from(error)),
        Record::Undecodable(error) => Err(RepoError::from(error)),
        Record::Decoded(document) => Ok(document),
    }
}

/// A listing: the step that waits for the reply to `Find`. It ends an
/// exchange.
#[derive(Debug)]
pub struct Listing {
    pub collection: Collections,
    pub filter: Filter,
}

impl Listing {
    /// The command to send: look up every document that matches the filter.
    pub fn command<'a, T>(&self) -> (command: Command<'a, T>)
        ensures
            command == find::<T>(self.collection, self.filter),
    {
        Command::Find { collection: self.collection, filter: self.filter.clone() }
    }

    /// Ends the listing with the store's reply. A document that failed or
    /// cannot be decoded becomes a failure in its own place and leaves the
    /// others as they are.
    pub fn listed<T>(self, reply: FindReply<T>) -> (outcome: Result<
        Vec<Result<T, RepoError>>,
        RepoError,
    >)
        ensures
            match find_outcome(reply) {
                Ok(entries) => outcome is Ok && outcome->Ok_0@ == entries,
                Err(error) => outcome == Err::<Vec<Result<T, RepoError>>, RepoError>(error),
            },
    {
        match reply {
            FindReply::Failed(error) => Err(RepoError::from(error)),
            FindReply::Records(records) => {
                let ghost all = records@;
                let mut entries: Vec<Result<T, RepoError>> = Vec::new();
                for record in iter: records
                    invariant
                        iter.seq() == all,
                        entries@ == all.subrange(0, iter.index()).map_values(
                            |record: Record<T>| record_outcome(record),
                        ),
                {
                    entries.push(decoded(record));
                    assert(all.subrange(0, iter.index() + 1).map_values(
                        |record: Record<T>| record_outcome(record),
                    ) =~= all.subrange(0, iter.index()).map_values(
                        |record: Record<T>| record_outcome(record),
                    ).push(record_outcome(all[iter.index()])));
                }
                assert(all.subrange(0, all.len() as int) =~= all);
                Ok(entries)
            },
        }
    }
}

/// `updated` is `list` with `item` added behind its items and nothing else
/// changed.
pub open spec fn appended(list: List, item: ListItem, updated: List) -> bool {
    &&& updated._id == list._id
    &&& updated.name == list.name
    &&& updated.user_id == list.user_id
    &&& updated.items@ == list.items@.push(item)
}

/// `outcome` is the step after the lookup of a list to which `item` is to be
/// added, given the store's reply: the replacement of the list by the list
/// with `item` added last; `ObjectNotFound` where the list is not there;
/// else the failure.
pub open spec fn append_outcome(
    list_id: ObjectId,
    item: ListItem,
    reply: FetchReply<List>,
    outcome: Result<Replacement<List>, RepoError>,
) -> bool {
    match reply {
        FetchReply::Failed(error) => outcome == Err::<Replacement<List>, RepoError>(
            RepoError::MongoError(error),
        ),
        FetchReply::Missing => outcome == Err::<Replacement<List>, RepoError>(
            RepoError::ObjectNotFound(list_id, Collections::Lists),
        ),
        FetchReply::Undecodable(error) => outcome == Err::<Replacement<List>, RepoError>(
            RepoError::BsonDe(error),
        ),
        FetchReply::Found(list) => {
            &&& outcome matches Ok(replacement)
            &&& replacement.collection == Collections::Lists
            &&& replacement.id == list_id
            &&& appended(list, item, replacement.document)
        },
    }
}

/// The addition of an item to a stored list: the step that waits for the
/// list to be looked up. Nothing guards the list between this lookup and the
/// replacement that follows: of two additions that overlap, the one that
/// replaces last wins and the other's item is lost.
#[derive(Debug)]
pub struct Append {
    pub list_id: ObjectId,
    pub item: ListItem,
}

impl Append {
    /// The command to send: look the list up by its identifier.
    pub fn command<'a>(&self) -> (command: Command<'a, List>)
        ensures
            command == find_one::<List>(Collections::Lists, Filter::ById(self.list_id)),
    {
        Command::FindOne { collection: Collections::Lists, filter: Filter::ById(self.list_id) }
    }

    /// Takes the store's reply to the lookup. Where the list is there, the
    /// next step replaces it by the list with the item added last. Where it
    /// is not, the exchange ends with `ObjectNotFound`.
    pub fn fetched(self, reply: FetchReply<List>) -> (outcome: Result<
        Replacement<List>,
        RepoError,
    >)
        ensures
            append_outcome(self.list_id, self.item, reply, outcome),
    {
        match reply {
            FetchReply::Failed(error) => Err(RepoError::from(error)),
            FetchReply::Missing => Err(
                RepoError::ObjectNotFound(self.list_id, Collections::Lists),
            ),
            FetchReply::Undecodable(error) => Err(RepoError::from(error)),
            FetchReply::Found(list) => {
                let mut list = list;
                list.add_item(self.item);
                Ok(Replacement { collection: Collections::Lists, id: self.list_id, document: list })
            },
        }
    }
}

/// The repository of one database.
#[derive(Debug)]
pub struct Repo {
    /// Where the store is reached.
    pub conn_str: String,
    /// The database that holds the collections.
    pub database: String,
}

impl Repo {
    /// The repository of the database named `database` of the store at
    /// `conn_str`. Nothing is connected yet, and nothing is read or
    /// written.
    pub fn new(conn_str: &str, database: &str) -> (repo: Self)
        ensures
            repo.conn_str@ == conn_str@,
            repo.database@ == database@,
    {
        Repo { conn_str: conn_str.to_owned(), database: database.to_owned() }
    }

    /// Opens the insert of `document` into the collection.
    pub fn add_document<'a, T>(&self, document: &'a T, collection: &Collections) -> (step:
        Insertion<'a, T>)
        ensures
            step.collection == *collection,
            step.document == document,
    {
        Insertion { collection: *collection, document }
    }

    /// Opens the lookup, in the collection, of the document with the
    /// identifier.
    pub fn get_document_by_id(&self, id: &ObjectId, collection: &Collections) -> (step: Lookup)
        ensures
            step == (Lookup { collection: *collection, filter: Filter::ById(*id) }),
    {
        Lookup { collection: *collection, filter: Filter::ById(*id) }
    }

    /// Opens the replacement, in the collection, of the document with the
    /// identifier by `document`, the whole of it.
    pub fn replace_document_by_id<T>(
        &self,
        id: &ObjectId,
        document: T,
        collection: &Collections,
    ) -> (step: Replacement<T>)
        ensures
            step == (Replacement { collection: *collection, id: *id, document }),
    {
        Replacement { collection: *collection, id: *id, document }
    }

    /// Opens the removal, from the collection, of the document with the
    /// identifier.
    pub fn delete_document_by_id(&self, id: &ObjectId, collection: &Collections) -> (step:
        Removal)
        ensures
            step == (Removal { collection: *collection, id: *id }),
    {
        Removal { collection: *collection, id: *id }
    }

    /// Opens the insert of a list.
    pub fn add_list<'a>(&self, list: &'a List) -> (step: Insertion<'a, List>)
        ensures
            step.collection == Collections::Lists,
            step.document == list,
    {
        self.add_document(list, &Collections::Lists)
    }

    /// Opens the lookup of the list with the identifier.
    pub fn get_list_by_id(&self, id: &ObjectId) -> (step: Lookup)
        ensures
            step == (Lookup { collection: Collections::Lists, filter: Filter::ById(*id) }),
    {
        self.get_document_by_id(id, &Collections::Lists)
    }

    /// Opens the removal of the list with the identifier.
    pub fn delete_list_by_id(&self, id: &ObjectId) -> (step: Removal)
        ensures
            step == (Removal { collection: Collections::Lists, id: *id }),
    {
        self.delete_document_by_id(id, &Collections::Lists)
    }

    /// Opens the insert of a store.
    pub fn add_store<'a>(&self, store: &'a Store) -> (step: Insertion<'a, Store>)
        ensures
            step.collection == Collections::Stores,
            step.document == store,
    {
        self.add_document(store, &Collections::Stores)
    }

    /// Opens the lookup of the store with the identifier.
    pub fn get_store_by_id(&self, id: &ObjectId) -> (step: Lookup)
        ensures
            step == (Lookup { collection: Collections::Stores, filter: Filter::ById(*id) }),
    {
        self.get_document_by_id(id, &Collections::Stores)
    }

    /// Opens the removal of the store with the identifier.
    pub fn delete_store_by_id(&self, id: &ObjectId) -> (step: Removal)
        ensures
            step == (Removal { collection: Collections::Stores, id: *id }),
    {
        self.delete_document_by_id(id, &Collections::Stores)
    }

    /// Opens the insert of a user.
    pub fn add_user<'a>(&self, user: &'a User) -> (step: Insertion<'a, User>)
        ensures
            step.collection == Collections::Users,
            step.document == user,
    {
        self.add_document(user, &Collections::Users)
    }

    /// Opens the lookup of a user with the given name.
    pub fn get_user_by_name(&self, name: &str) -> (step: Lookup)
        ensures
            step.collection == Collections::Users,
            step.filter matches Filter::ByName(text) && text@ == name@,
    {
        Lookup { collection: Collections::Users, filter: Filter::ByName(name.to_owned()) }
    }

    /// Opens the listing of the lists that the user owns.
    pub fn get_lists_by_user(&self, user_id: &ObjectId) -> (step: Listing)
        ensures
            step == (Listing { collection: Collections::Lists, filter: Filter::ByUser(*user_id) }),
    {
        Listing { collection: Collections::Lists, filter: Filter::ByUser(*user_id) }
    }

    /// Opens the addition of `item` behind the items of the stored list
    /// with the identifier.
    pub fn add_list_item(&self, list_id: &ObjectId, item: &ListItem) -> (step: Append)
        ensures
            step == (Append { list_id: *list_id, item: *item }),
    {
        Append { list_id: *list_id, item: item.clone() }
    }
}

} // verus!
