//! Stores and the categories of goods they carry.

use crate::text::{is_normalized, lowercase, to_lowercase};
use bson::oid::ObjectId;
use vstd::prelude::*;

verus! {

/// What a store says: its identifier, name and categories in order.
pub struct StoreView {
    pub id: Option<ObjectId>,
    pub name: Seq<char>,
    pub categories: Seq<Seq<char>>,
}

/// The texts of a sequence of strings, in the same order.
pub open spec fn texts(values: Seq<String>) -> Seq<Seq<char>> {
    values.map_values(|value: String| value@)
}

/// Appending a string appends its text.
pub proof fn lemma_texts_push(values: Seq<String>, value: String)
    ensures
        texts(values.push(value)) == texts(values).push(value@),
{
    assert(texts(values.push(value)) =~= texts(values).push(value@));
}

/// A store. It has no identifier until the document store assigns one.
#[derive(Debug, PartialEq)]
pub struct Store {
    pub _id: Option<ObjectId>,
    pub name: String,
    pub categories: Vec<String>,
}

impl View for Store {
    type V = StoreView;

    open spec fn view(&self) -> StoreView {
        StoreView { id: self._id, name: self.name@, categories: texts(self.categories@) }
    }
}

/// A copy of a sequence of strings, in the same order.
fn clone_texts(values: &Vec<String>) -> (copy: Vec<String>)
    ensures
        copy@ == values@,
{
    let mut copy: Vec<String> = Vec::new();
    let mut i: usize = 0;
    while i < values.len()
        invariant
            i <= values.len(),
            copy@ == values@.subrange(0, i as int),
        decreases values.len() - i,
    {
        copy.push(values[i].clone());
        i = i + 1;
    }
    copy
}

impl Clone for Store {
    fn clone(&self) -> (copy: Self)
        ensures
            copy._id == self._id,
            copy.name == self.name,
            copy.categories@ == self.categories@,
            copy@ == self@,
    {
        Store {
            _id: self._id,
            name: self.name.clone(),
            categories: clone_texts(&self.categories),
        }
    }
}

impl Store {
    /// Every category of the store is in lower case.
    pub open spec fn wf(&self) -> bool {
        forall|i: int|
            0 <= i < self.categories@.len() ==> is_normalized(#[trigger] self.categories@[i]@)
    }

    /// A store with the given name, no identifier and no categories.
    pub fn new(name: &str) -> (store: Self)
        ensures
            store@ == (StoreView { id: None, name: name@, categories: Seq::empty() }),
            store.wf(),
    {
        let store = Store { _id: None, name: name.to_owned(), categories: Vec::new() };
        assert(texts(store.categories@) =~= Seq::<Seq<char>>::empty());
        store
    }

    /// Appends `lower`, a category already in lower case, behind the
    /// categories that the store holds, also where it holds that category
    /// already; nothing else changes.
    pub fn push_category(&mut self, lower: String)
        ensures
            final(self).categories@ == old(self).categories@.push(lower),
            final(self)._id == old(self)._id,
            final(self).name == old(self).name,
            final(self)@ == (StoreView {
                categories: old(self)@.categories.push(lower@),
                ..old(self)@
            }),
            old(self).wf() && is_normalized(lower@) ==> final(self).wf(),
    {
        proof {
            lemma_texts_push(self.categories@, lower);
        }
        self.categories.push(lower);
    }

    /// Appends the lower-case form of `category` behind the categories that
    /// the store holds, also where it holds that category already; nothing
    /// else changes.
    pub fn add_category(&mut self, category: &str)
        ensures
            final(self)@ == (StoreView {
                categories: old(self)@.categories.push(lowercase(category@)),
                ..old(self)@
            }),
            final(self)._id == old(self)._id,
            final(self).name == old(self).name,
            final(self).categories@.len() == old(self).categories@.len() + 1,
            forall|i: int|
                0 <= i < old(self).categories@.len() ==> final(self).categories@[i]
                    == old(self).categories@[i],
            old(self).wf() ==> final(self).wf(),
    {
        self.push_category(to_lowercase(category));
    }
}

} // verus!
