//! The collections of the document store, one for each kind of entity.

use vstd::prelude::*;

verus! {

/// The kinds of entity that are kept, each in a collection of its own.
#[derive(Debug, Clone, Copy, PartialEq, Eq, Structural)]
pub enum Collections {
    Lists,
    Stores,
    Users,
}

impl Collections {
    /// The name of the collection that holds this kind of entity.
    pub open spec fn name(self) -> Seq<char> {
        match self {
            Collections::Lists => "lists"@,
            Collections::Stores => "stores"@,
            Collections::Users => "users"@,
        }
    }

    /// The name of the collection, as the store knows it.
    pub fn to_string(&self) -> (name: String)
        ensures
            name@ == self.name(),
    {
        match self {
            Collections::Lists => "lists".to_owned(),
            Collections::Stores => "stores".to_owned(),
            Collections::Users => "users".to_owned(),
        }
    }
}

/// No two kinds of entity share a collection.
pub proof fn lemma_collection_names_differ(a: Collections, b: Collections)
    ensures
        a.name() == b.name() <==> a == b,
{
    reveal_strlit("lists");
    reveal_strlit("stores");
    reveal_strlit("users");
    assert("lists"@.len() == 5);
    assert("stores"@.len() == 6);
    assert("users"@.len() == 5);
    assert("lists"@[0] == 'l');
    assert("users"@[0] == 'u');
}

} // verus!
