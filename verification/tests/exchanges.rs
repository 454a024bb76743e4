use grok_list::collections::Collections;
use grok_list::command::{
    Command, DeleteReply, FetchReply, Filter, FindReply, InsertReply, InsertedId, Record,
    ReplaceReply,
};
use grok_list::error::RepoError;
use grok_list::list::{List, ListItem};
use grok_list::repo::{Append, Insertion, Listing, Lookup, Removal, Replacement, Repo};
use grok_list::store::Store;
use grok_list::user::User;
use grok_list::user_handlers::{create_user, user_created, Status, User as SentUser};
use mongodb::bson::oid::ObjectId;

const MONGO_URI: &str = "mongodb://localhost:27017/";
const DATABASE: &str = "grok_list";

/// What the stand-in store needs to know of an entity.
trait Kept: Clone {
    fn id(&self) -> Option<ObjectId>;
    fn keep_under(&mut self, id: ObjectId);
    fn selected_by(&self, filter: &Filter) -> bool;
}

impl Kept for User {
    fn id(&self) -> Option<ObjectId> {
        self._id
    }

    fn keep_under(&mut self, id: ObjectId) {
        self._id = Some(id);
    }

    fn selected_by(&self, filter: &Filter) -> bool {
        match filter {
            Filter::ById(id) => self._id == Some(*id),
            Filter::ByName(name) => &self.name == name,
            Filter::ByUser(_) => false,
        }
    }
}

impl Kept for Store {
    fn id(&self) -> Option<ObjectId> {
        self._id
    }

    fn keep_under(&mut self, id: ObjectId) {
        self._id = Some(id);
    }

    fn selected_by(&self, filter: &Filter) -> bool {
        match filter {
            Filter::ById(id) => self._id == Some(*id),
            Filter::ByName(name) => &self.name == name,
            Filter::ByUser(_) => false,
        }
    }
}

impl Kept for List {
    fn id(&self) -> Option<ObjectId> {
        self._id
    }

    fn keep_under(&mut self, id: ObjectId) {
        self._id = Some(id);
    }

    fn selected_by(&self, filter: &Filter) -> bool {
        match filter {
            Filter::ById(id) => self._id == Some(*id),
            Filter::ByName(name) => &self.name == name,
            Filter::ByUser(user_id) => self.user_id == *user_id,
        }
    }
}

/// One collection of a store that keeps what it is given, in memory.
struct Shelf<T> {
    collection: Collections,
    documents: Vec<T>,
}

impl<T: Kept + std::fmt::Debug> Shelf<T> {
    fn new(collection: Collections) -> Self {
        Shelf { collection, documents: Vec::new() }
    }

    fn insert_one(&mut self, command: Command<T>) -> InsertReply {
        match command {
            Command::InsertOne { collection, document } => {
                assert_eq!(collection, self.collection);
                let id = document.id().unwrap_or_else(ObjectId::new);
                let mut stored = document.clone();
                stored.keep_under(id);
                self.documents.push(stored);
                InsertReply::Inserted(InsertedId::ObjectId(id))
            }
            other => panic!("unexpected command: {:?}", other),
        }
    }

    fn find_one(&self, command: Command<T>) -> FetchReply<T> {
        match command {
            Command::FindOne { collection, filter } => {
                assert_eq!(collection, self.collection);
                match self.documents.iter().find(|document| document.selected_by(&filter)) {
                    Some(document) => FetchReply::Found(document.clone()),
                    None => FetchReply::Missing,
                }
            }
            other => panic!("unexpected command: {:?}", other),
        }
    }

    fn find(&self, command: Command<T>) -> FindReply<T> {
        match command {
            Command::Find { collection, filter } => {
                assert_eq!(collection, self.collection);
                FindReply::Records(
                    self.documents
                        .iter()
                        .filter(|document| document.selected_by(&filter))
                        .map(|document| Record::Decoded(document.clone()))
                        .collect(),
                )
            }
            other => panic!("unexpected command: {:?}", other),
        }
    }

    fn replace_one(&mut self, command: Command<T>) -> ReplaceReply {
        match command {
            Command::ReplaceOne { collection, filter, document } => {
                assert_eq!(collection, self.collection);
                if let Some(place) =
                    self.documents.iter_mut().find(|stored| stored.selected_by(&filter))
                {
                    let id = place.id().expect("a stored document has an identifier");
                    *place = document.clone();
                    place.keep_under(id);
                }
                ReplaceReply::Replaced
            }
            other => panic!("unexpected command: {:?}", other),
        }
    }

    fn delete_one(&mut self, command: Command<T>) -> DeleteReply {
        match command {
            Command::DeleteOne { collection, filter } => {
                assert_eq!(collection, self.collection);
                match self.documents.iter().position(|stored| stored.selected_by(&filter)) {
                    Some(at) => {
                        self.documents.remove(at);
                        DeleteReply::Deleted(1)
                    }
                    None => DeleteReply::Deleted(0),
                }
            }
            other => panic!("unexpected command: {:?}", other),
        }
    }

    fn add(&mut self, step: Insertion<T>) -> Result<Option<T>, RepoError> {
        let reply = self.insert_one(step.command());
        let lookup = step.inserted(reply)?;
        self.get(lookup)
    }

    fn get(&self, step: Lookup) -> Result<Option<T>, RepoError> {
        let reply = self.find_one(step.command());
        step.fetched(reply)
    }

    fn replace(&mut self, step: Replacement<T>) -> Result<Option<T>, RepoError> {
        let reply = self.replace_one(step.command());
        let lookup = step.replaced(reply)?;
        self.get(lookup)
    }

    fn delete(&mut self, step: Removal) -> Result<u64, RepoError> {
        let reply = self.delete_one(step.command());
        step.deleted(reply)
    }

    fn list(&self, step: Listing) -> Result<Vec<Result<T, RepoError>>, RepoError> {
        let reply = self.find(step.command());
        step.listed(reply)
    }
}

fn add_item(shelf: &mut Shelf<List>, step: Append) -> Result<Option<List>, RepoError> {
    let reply = shelf.find_one(step.command());
    let replacement = step.fetched(reply)?;
    shelf.replace(replacement)
}

#[test]
fn can_insert_and_retrieve_lists_by_id() {
    let repo = Repo::new(MONGO_URI, DATABASE);
    let mut lists = Shelf::new(Collections::Lists);
    let list_item = ListItem::builder("salmon").category("meat").amount("2lb").build();
    let list = List::builder("test_list".to_string(), ObjectId::new()).add_item(list_item).build();

    let inserted_list = lists
        .add(repo.add_list(&list))
        .expect("Error inserting list")
        .expect("got None when reading our writes");
    let retrieved = lists
        .get(repo.get_list_by_id(&inserted_list._id.clone().expect("Inserted list had no _id")))
        .expect("Error finding list")
        .unwrap_or_else(|| panic!("List with id: {:?} did not exist", inserted_list._id.clone()));

    assert_eq!(retrieved.user_id, list.user_id);
    assert_eq!(retrieved.items, list.items);

    let items_deleted = lists
        .delete(repo.delete_list_by_id(&inserted_list._id.expect("Inserted list had no id")))
        .expect("Error deleting list");
    assert_eq!(1, items_deleted);
}

#[test]
fn can_insert_and_retrieve_categories_by_id() {
    let repo = Repo::new(MONGO_URI, DATABASE);
    let mut stores = Shelf::new(Collections::Stores);
    let mut store = Store::new("test_store");
    store.add_category("MEAT");
    store.add_category("Produce");

    let inserted_store = stores
        .add(repo.add_store(&store))
        .expect("Error inserting store")
        .expect("got None when reading our writes");
    let retrieved = stores
        .get(repo.get_store_by_id(&inserted_store._id.clone().expect("Inserted store had no _id")))
        .expect("Error finding store")
        .unwrap_or_else(|| panic!("Store with id: {:?} did not exist", inserted_store._id.clone()));

    assert_eq!(retrieved.name, store.name);
    assert_eq!(retrieved.categories, store.categories);

    let stores_deleted = stores
        .delete(repo.delete_store_by_id(&inserted_store._id.expect("Inserted store had no _id")))
        .expect("Error deleting store");
    assert_eq!(1, stores_deleted);
}

#[test]
fn can_insert_user() {
    let repo = Repo::new(MONGO_URI, DATABASE);
    let mut users = Shelf::new(Collections::Users);
    let user = User::new("test_user".to_string(), "test@email.com".to_string());

    let inserted_user = users
        .add(repo.add_user(&user))
        .expect("Error inserting user")
        .expect("got None when reading our writes");
    let retrieved = users
        .get(repo.get_user_by_name(&user.name))
        .expect("Error finding store")
        .unwrap_or_else(|| panic!("User with name: {:?} did not exist", user.name));

    assert_eq!(retrieved.name, user.name);
    assert_eq!(retrieved.email, user.email);
    assert_eq!(retrieved, inserted_user);
}

#[test]
fn can_fetch_lists_by_user() {
    let repo = Repo::new(MONGO_URI, DATABASE);
    let mut users = Shelf::new(Collections::Users);
    let mut lists = Shelf::new(Collections::Lists);
    let user = User::new("test_user".to_string(), "test@email.com".to_string());

    let inserted_user = users
        .add(repo.add_user(&user))
        .expect("Error inserting user")
        .expect("got None when reading our writes");

    let list_item = ListItem::builder("salmon").category("meat").amount("2lb").build();
    let list = List::builder(
        "test_list".to_string(),
        inserted_user._id.clone().expect("Inserted user had no _id"),
    )
    .add_item(list_item)
    .build();

    let inserted_list = lists
        .add(repo.add_list(&list))
        .expect("Error inserting list")
        .expect("got None when reading our writes");

    let found: Vec<List> = lists
        .list(repo.get_lists_by_user(&inserted_user._id.expect("Inserted user had no _id")))
        .expect("Error listing lists")
        .into_iter()
        .map(Result::unwrap)
        .collect();

    assert_eq!(found, vec![inserted_list]);
}

#[test]
fn can_add_items_to_existing_list() {
    let repo = Repo::new(MONGO_URI, DATABASE);
    let mut lists = Shelf::new(Collections::Lists);

    let list_item = ListItem::builder("salmon").category("meat").amount("2lb").build();
    let list = List::builder("test_list_add_items".to_string(), ObjectId::new())
        .add_item(list_item.clone())
        .build();
    let inserted_list = lists
        .add(repo.add_list(&list))
        .expect("Error inserting list")
        .expect("got None when reading our writes");

    let new_list_item = ListItem::builder("brocc").category("veg").amount("1").build();

    let updated_list = add_item(
        &mut lists,
        repo.add_list_item(&inserted_list._id.expect("Inserted list had no _id"), &new_list_item),
    )
    .unwrap()
    .expect("got None when reading our writes");

    assert_eq!(list.name, updated_list.name);
    assert_eq!(vec![list_item, new_list_item], updated_list.items);
}

#[test]
fn can_add_user() {
    let repo = Repo::new(MONGO_URI, DATABASE);
    let mut users = Shelf::new(Collections::Users);
    let sent = SentUser::new(None, "foo".to_string(), "foo@bar.com".to_string());

    let account = create_user(&sent);
    let answer = user_created(users.add(repo.add_user(&account)));

    let json = answer.expect("the request succeeds");
    assert_eq!(json.name, "foo");
    assert_eq!(json.email, "foo@bar.com");
    assert!(json.id.is_some());
}

#[test]
fn an_identifier_in_a_request_is_ignored() {
    let sent = SentUser::new(Some(ObjectId::new()), "foo".to_string(), "foo@bar.com".to_string());

    let account = create_user(&sent);

    assert_eq!(account, User::new("foo".to_string(), "foo@bar.com".to_string()));
}

#[test]
fn a_failed_or_empty_insert_is_a_server_error() {
    let failed = user_created(Err(RepoError::NotObjectId));
    assert_eq!(failed, Err(Status::InternalServerError));

    let broken = user_created(Err(RepoError::MongoError(mongodb::error::Error::custom(
        "the connection was reset".to_string(),
    ))));
    assert_eq!(broken, Err(Status::InternalServerError));

    let nothing = user_created(Ok(None));
    assert_eq!(nothing, Err(Status::InternalServerError));

    assert_eq!(Status::InternalServerError.code(), 500);
}

#[test]
fn a_created_user_is_answered_with_its_identifier() {
    let id = ObjectId::new();
    let mut account = User::new("foo".to_string(), "foo@bar.com".to_string());
    account._id = Some(id);

    let answer = user_created(Ok(Some(account)));

    assert_eq!(answer, Ok(SentUser::new(Some(id), "foo".to_string(), "foo@bar.com".to_string())));
}

#[test]
fn users_lists_and_items_from_end_to_end() {
    let repo = Repo::new(MONGO_URI, DATABASE);
    let mut users = Shelf::new(Collections::Users);
    let mut lists = Shelf::new(Collections::Lists);

    let user = User::new("foo".to_string(), "foo@bar.com".to_string());
    let stored_user = users.add(repo.add_user(&user)).unwrap().unwrap();
    let user_id = stored_user._id.expect("the store assigned an identifier");
    assert_eq!(stored_user.name, "foo");
    assert_eq!(stored_user.email, "foo@bar.com");

    let salmon = ListItem::builder("salmon").category("Meat").amount("2lb").build();
    let list = List::builder("weekly".to_string(), user_id).add_item(salmon).build();
    let stored_list = lists.add(repo.add_list(&list)).unwrap().unwrap();
    let list_id = stored_list._id.expect("the store assigned an identifier");
    let fetched = lists.get(repo.get_list_by_id(&list_id)).unwrap().unwrap();
    assert_eq!(fetched.items[0].category, Some("meat".to_owned()));
    assert_eq!(fetched, stored_list);

    let brocc = ListItem::builder("brocc").category("veg").amount("1").build();
    add_item(&mut lists, repo.add_list_item(&list_id, &brocc)).unwrap().unwrap();
    let fetched = lists.get(repo.get_list_by_id(&list_id)).unwrap().unwrap();
    assert_eq!(
        fetched.items,
        vec![
            ListItem::builder("salmon").category("meat").amount("2lb").build(),
            ListItem::builder("brocc").category("veg").amount("1").build(),
        ]
    );
}

#[test]
fn an_inserted_entity_comes_back_with_an_identifier_and_its_fields() {
    let repo = Repo::new(MONGO_URI, DATABASE);
    let mut stores = Shelf::new(Collections::Stores);
    let mut store = Store::new("test_store");
    store.add_category("Dairy");

    let inserted = stores.add(repo.add_store(&store)).unwrap().unwrap();
    let id = inserted._id.expect("the store assigned an identifier");
    let fetched = stores.get(repo.get_store_by_id(&id)).unwrap();

    assert_eq!(fetched, Some(inserted.clone()));
    assert_eq!(inserted.name, store.name);
    assert_eq!(inserted.categories, store.categories);
}

#[test]
fn a_second_removal_removes_nothing() {
    let repo = Repo::new(MONGO_URI, DATABASE);
    let mut lists = Shelf::new(Collections::Lists);
    let list = List::builder("test_list".to_string(), ObjectId::new()).build();
    let id = lists.add(repo.add_list(&list)).unwrap().unwrap()._id.unwrap();

    assert_eq!(lists.delete(repo.delete_list_by_id(&ObjectId::new())).unwrap(), 0);
    assert_eq!(lists.delete(repo.delete_list_by_id(&id)).unwrap(), 1);
    assert_eq!(lists.delete(repo.delete_list_by_id(&id)).unwrap(), 0);
    assert_eq!(lists.get(repo.get_list_by_id(&id)).unwrap(), None);
}

#[test]
fn only_the_lists_of_the_user_are_listed() {
    let repo = Repo::new(MONGO_URI, DATABASE);
    let mut lists = Shelf::new(Collections::Lists);
    let owner = ObjectId::new();
    let other = ObjectId::new();
    let mut expected = Vec::new();
    for n in 0..12 {
        let user_id = if n % 3 == 0 { owner } else { other };
        let list = List::builder(format!("list {}", n), user_id).build();
        let stored = lists.add(repo.add_list(&list)).unwrap().unwrap();
        if n % 3 == 0 {
            expected.push(stored);
        }
    }

    let found: Vec<List> =
        lists.list(repo.get_lists_by_user(&owner)).unwrap().into_iter().map(Result::unwrap).collect();

    assert_eq!(found, expected);
    assert!(lists.list(repo.get_lists_by_user(&ObjectId::new())).unwrap().is_empty());
}

#[test]
fn a_replacement_keeps_the_identifier() {
    let repo = Repo::new(MONGO_URI, DATABASE);
    let mut stores = Shelf::new(Collections::Stores);
    let id = stores.add(repo.add_store(&Store::new("old name"))).unwrap().unwrap()._id.unwrap();
    let mut renamed = Store::new("new name");
    renamed.add_category("Dairy");

    let replaced = stores
        .replace(repo.replace_document_by_id(&id, renamed.clone(), &Collections::Stores))
        .unwrap()
        .expect("the store was there");

    assert_eq!(replaced._id, Some(id));
    assert_eq!(replaced.name, "new name");
    assert_eq!(replaced.categories, renamed.categories);
    assert_eq!(stores.get(repo.get_store_by_id(&id)).unwrap(), Some(replaced));
    assert_eq!(stores.documents.len(), 1);
}

#[test]
fn replacing_a_missing_document_returns_nothing() {
    let repo = Repo::new(MONGO_URI, DATABASE);
    let mut lists = Shelf::new(Collections::Lists);
    let id = ObjectId::new();
    let list = List::builder("test_list".to_string(), ObjectId::new()).build();

    let outcome = lists.replace(repo.replace_document_by_id(&id, list, &Collections::Lists));

    assert_eq!(outcome.unwrap(), None);
    assert!(lists.documents.is_empty());
}

#[test]
fn adding_to_a_missing_list_sends_no_replacement() {
    let repo = Repo::new(MONGO_URI, DATABASE);
    let mut lists = Shelf::new(Collections::Lists);
    let list_id = ObjectId::new();
    let brocc = ListItem::builder("brocc").build();

    let outcome = add_item(&mut lists, repo.add_list_item(&list_id, &brocc));

    assert!(matches!(
        outcome,
        Err(RepoError::ObjectNotFound(id, Collections::Lists)) if id == list_id
    ));
    assert!(lists.documents.is_empty());
}

#[test]
fn of_two_overlapping_additions_the_last_replacement_wins() {
    let repo = Repo::new(MONGO_URI, DATABASE);
    let mut lists = Shelf::new(Collections::Lists);
    let list = List::builder("test_list".to_string(), ObjectId::new()).build();
    let id = lists.add(repo.add_list(&list)).unwrap().unwrap()._id.unwrap();
    let oats = ListItem::builder("oats").build();
    let milk = ListItem::builder("milk").build();

    let first = repo.add_list_item(&id, &oats);
    let second = repo.add_list_item(&id, &milk);
    let first_seen = lists.find_one(first.command());
    let second_seen = lists.find_one(second.command());
    let first_replacement = first.fetched(first_seen).unwrap();
    let second_replacement = second.fetched(second_seen).unwrap();
    lists.replace(first_replacement).unwrap();
    let last = lists.replace(second_replacement).unwrap().unwrap();

    assert_eq!(last.items, vec![milk]);
}
