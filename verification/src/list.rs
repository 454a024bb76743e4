//! Shopping lists and their items.

use crate::text::{is_normalized, lowercase, to_lowercase};
use bson::oid::ObjectId;
use vstd::prelude::*;

verus! {

/// The text of an optional string.
pub open spec fn text_of(value: Option<String>) -> Option<Seq<char>> {
    match value {
        Some(text) => Some(text@),
        None => None,
    }
}

/// What a list item says.
pub struct ListItemView {
    pub name: Seq<char>,
    pub category: Option<Seq<char>>,
    pub amount: Option<Seq<char>>,
}

/// One entry of a shopping list.
#[derive(Debug, PartialEq)]
pub struct ListItem {
    pub name: String,
    pub category: Option<String>,
    pub amount: Option<String>,
}

impl View for ListItem {
    type V = ListItemView;

    open spec fn view(&self) -> ListItemView {
        ListItemView {
            name: self.name@,
            category: text_of(self.category),
            amount: text_of(self.amount),
        }
    }
}

impl Clone for ListItem {
    fn clone(&self) -> (copy: Self)
        ensures
            copy == *self,
    {
        ListItem {
            name: self.name.clone(),
            category: clone_text(&self.category),
            amount: clone_text(&self.amount),
        }
    }
}

/// A copy of an optional string.
fn clone_text(value: &Option<String>) -> (copy: Option<String>)
    ensures
        copy == *value,
{
    match value {
        Some(text) => Some(text.clone()),
        None => None,
    }
}

impl ListItem {
    /// An item's category, where it has one, is in lower case.
    pub open spec fn wf(&self) -> bool {
        self.category matches Some(category) ==> is_normalized(category@)
    }

    /// Starts an item with the given name and neither category nor amount.
    pub fn builder(name: &str) -> (builder: ListItemBuilder)
        ensures
            builder@ == (ListItemView { name: name@, category: None, amount: None }),
            builder.wf(),
    {
        ListItemBuilder::new(name)
    }
}

/// An item under construction.
#[derive(Debug)]
pub struct ListItemBuilder {
    pub name: String,
    pub category: Option<String>,
    pub amount: Option<String>,
}

impl View for ListItemBuilder {
    type V = ListItemView;

    open spec fn view(&self) -> ListItemView {
        ListItemView {
            name: self.name@,
            category: text_of(self.category),
            amount: text_of(self.amount),
        }
    }
}

impl Clone for ListItemBuilder {
    fn clone(&self) -> (copy: Self)
        ensures
            copy == *self,
    {
        ListItemBuilder {
            name: self.name.clone(),
            category: clone_text(&self.category),
            amount: clone_text(&self.amount),
        }
    }
}

impl ListItemBuilder {
    /// The category set so far, if any, is in lower case.
    pub open spec fn wf(&self) -> bool {
        self.category matches Some(category) ==> is_normalized(category@)
    }

    /// A builder that holds the name alone.
    pub fn new(name: &str) -> (builder: Self)
        ensures
            builder@ == (ListItemView { name: name@, category: None, amount: None }),
            builder.wf(),
    {
        ListItemBuilder { name: name.to_owned(), category: None, amount: None }
    }

    /// Sets the category to `lower`, a category already in lower case,
    /// replacing an earlier one.
    pub fn set_category<'a>(&'a mut self, lower: String) -> (builder: &'a mut Self)
        ensures
            builder.category == Some(lower),
            builder.name == old(self).name,
            builder.amount == old(self).amount,
            builder@ == (ListItemView { category: Some(lower@), ..old(self)@ }),
            is_normalized(lower@) ==> builder.wf(),
            *final(self) == *final(builder),
    {
        self.category = Some(lower);
        self
    }

    /// Sets the category to the lower-case form of `category`, replacing an
    /// earlier one.
    pub fn category<'a>(&'a mut self, category: &str) -> (builder: &'a mut Self)
        ensures
            builder@ == (ListItemView { category: Some(lowercase(category@)), ..old(self)@ }),
            builder.name == old(self).name,
            builder.amount == old(self).amount,
            builder.wf(),
            *final(self) == *final(builder),
    {
        self.set_category(to_lowercase(category))
    }

    /// Sets the amount to `amount` as given, replacing an earlier one.
    pub fn amount<'a>(&'a mut self, amount: &str) -> (builder: &'a mut Self)
        ensures
            builder@ == (ListItemView { amount: Some(amount@), ..old(self)@ }),
            builder.name == old(self).name,
            builder.category == old(self).category,
            old(self).wf() ==> builder.wf(),
            *final(self) == *final(builder),
    {
        self.amount = Some(amount.to_owned());
        self
    }

    /// The item that the builder describes; the builder stays usable.
    pub fn build(&self) -> (item: ListItem)
        ensures
            item.name == self.name,
            item.category == self.category,
            item.amount == self.amount,
            item@ == self@,
            self.wf() ==> item.wf(),
    {
        ListItem {
            name: self.name.clone(),
            category: clone_text(&self.category),
            amount: clone_text(&self.amount),
        }
    }
}

/// What a list says: its identifier, name, owner and items in order.
pub struct ListView {
    pub id: Option<ObjectId>,
    pub name: Seq<char>,
    pub user_id: ObjectId,
    pub items: Seq<ListItemView>,
}

/// The views of a sequence of items, in the same order.
pub open spec fn item_views(items: Seq<ListItem>) -> Seq<ListItemView> {
    items.map_values(|item: ListItem| item@)
}

/// Appending an item appends its view.
pub proof fn lemma_item_views_push(items: Seq<ListItem>, item: ListItem)
    ensures
        item_views(items.push(item)) == item_views(items).push(item@),
{
    assert(item_views(items.push(item)) =~= item_views(items).push(item@));
}

/// Every item of the sequence is well formed.
pub open spec fn items_wf(items: Seq<ListItem>) -> bool {
    forall|i: int| 0 <= i < items.len() ==> (#[trigger] items[i]).wf()
}

/// A shopping list. It has no identifier until the store assigns one.
#[derive(Debug, PartialEq)]
pub struct List {
    pub _id: Option<ObjectId>,
    pub name: String,
    pub user_id: ObjectId,
    pub items: Vec<ListItem>,
}

impl View for List {
    type V = ListView;

    open spec fn view(&self) -> ListView {
        ListView {
            id: self._id,
            name: self.name@,
            user_id: self.user_id,
            items: item_views(self.items@),
        }
    }
}

/// A copy of a sequence of items, in the same order.
fn clone_items(items: &Vec<ListItem>) -> (copy: Vec<ListItem>)
    ensures
        copy@ == items@,
{
    let mut copy: Vec<ListItem> = Vec::new();
    let mut i: usize = 0;
    while i < items.len()
        invariant
            i <= items.len(),
            copy@ == items@.subrange(0, i as int),
        decreases items.len() - i,
    {
        copy.push(items[i].clone());
        i = i + 1;
    }
    copy
}

impl Clone for List {
    fn clone(&self) -> (copy: Self)
        ensures
            copy._id == self._id,
            copy.name == self.name,
            copy.user_id == self.user_id,
            copy.items@ == self.items@,
            copy@ == self@,
    {
        List {
            _id: self._id,
            name: self.name.clone(),
            user_id: self.user_id,
            items: clone_items(&self.items),
        }
    }
}

impl List {
    /// Every item of the list is well formed.
    pub open spec fn wf(&self) -> bool {
        items_wf(self.items@)
    }

    /// Starts a list with the given name and owner, without identifier or
    /// items.
    pub fn builder(name: String, user_id: ObjectId) -> (builder: ListBuilder)
        ensures
            builder._id is None,
            builder.name == name,
            builder.user_id == user_id,
            builder.items@ == Seq::<ListItem>::empty(),
            builder.wf(),
    {
        ListBuilder::new(name, user_id)
    }

    /// Appends `item` behind the items that the list holds; nothing else
    /// changes.
    pub fn add_item(&mut self, item: ListItem)
        ensures
            final(self).items@ == old(self).items@.push(item),
            final(self)._id == old(self)._id,
            final(self).name == old(self).name,
            final(self).user_id == old(self).user_id,
            final(self)@ == (ListView { items: old(self)@.items.push(item@), ..old(self)@ }),
            old(self).wf() && item.wf() ==> final(self).wf(),
    {
        proof {
            lemma_item_views_push(self.items@, item);
        }
        self.items.push(item);
    }
}

/// A list under construction.
#[derive(Debug)]
pub struct ListBuilder {
    pub _id: Option<ObjectId>,
    pub name: String,
    pub user_id: ObjectId,
    pub items: Vec<ListItem>,
}

impl View for ListBuilder {
    type V = ListView;

    open spec fn view(&self) -> ListView {
        ListView {
            id: self._id,
            name: self.name@,
            user_id: self.user_id,
            items: item_views(self.items@),
        }
    }
}

impl Clone for ListBuilder {
    fn clone(&self) -> (copy: Self)
        ensures
            copy._id == self._id,
            copy.name == self.name,
            copy.user_id == self.user_id,
            copy.items@ == self.items@,
            copy@ == self@,
    {
        ListBuilder {
            _id: self._id,
            name: self.name.clone(),
            user_id: self.user_id,
            items: clone_items(&self.items),
        }
    }
}

impl ListBuilder {
    /// Every item added so far is well formed.
    pub open spec fn wf(&self) -> bool {
        items_wf(self.items@)
    }

    /// A builder that holds the name and the owner alone.
    pub fn new(name: String, user_id: ObjectId) -> (builder: Self)
        ensures
            builder._id is None,
            builder.name == name,
            builder.user_id == user_id,
            builder.items@ == Seq::<ListItem>::empty(),
            builder.wf(),
    {
        ListBuilder { _id: None, name, user_id, items: Vec::new() }
    }

    /// The list that the builder describes, items in the order in which they
    /// were added; the builder stays usable.
    pub fn build(&self) -> (list: List)
        ensures
            list._id == self._id,
            list.name == self.name,
            list.user_id == self.user_id,
            list.items@ == self.items@,
            list@ == self@,
            self.wf() ==> list.wf(),
    {
        List {
            _id: self._id,
            name: self.name.clone(),
            user_id: self.user_id,
            items: clone_items(&self.items),
        }
    }

    /// Appends `item` behind the items added so far; nothing else changes.
    pub fn add_item<'a>(&'a mut self, item: ListItem) -> (builder: &'a mut Self)
        ensures
            builder.items@ == old(self).items@.push(item),
            builder._id == old(self)._id,
            builder.name == old(self).name,
            builder.user_id == old(self).user_id,
            builder@ == (ListView { items: old(self)@.items.push(item@), ..old(self)@ }),
            old(self).wf() && item.wf() ==> builder.wf(),
            *final(self) == *final(builder),
    {
        proof {
            lemma_item_views_push(self.items@, item);
        }
        self.items.push(item);
        self
    }
}

} // verus!
