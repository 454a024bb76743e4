//! User accounts.

use bson::oid::ObjectId;
use vstd::prelude::*;

verus! {

/// What a user account says.
pub struct UserView {
    pub id: Option<ObjectId>,
    pub name: Seq<char>,
    pub email: Seq<char>,
}

/// A user account. It has no identifier until the store assigns one.
#[derive(Debug, PartialEq)]
pub struct User {
    pub _id: Option<ObjectId>,
    pub name: String,
    pub email: String,
}

impl View for User {
    type V = UserView;

    open spec fn view(&self) -> UserView {
        UserView { id: self._id, name: self.name@, email: self.email@ }
    }
}

impl Clone for User {
    fn clone(&self) -> (copy: Self)
        ensures
            copy == *self,
    {
        User { _id: self._id, name: self.name.clone(), email: self.email.clone() }
    }
}

impl User {
    /// An account has a name.
    pub open spec fn wf(&self) -> bool {
        self.name@.len() > 0
    }

    /// An account with the given name and email and no identifier. It is
    /// well formed where the name is not empty.
    pub fn new(name: String, email: String) -> (user: Self)
        ensures
            user == (User { _id: None, name, email }),
            user.wf() <==> name@.len() > 0,
    {
        User { _id: None, name, email }
    }
}

} // verus!
