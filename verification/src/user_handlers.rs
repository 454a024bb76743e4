//! The account service as callers outside see it: the user they send and get
//! back, and what a request to create one comes to.

use crate::error::RepoError;
use crate::user::User as RepoUser;
use bson::oid::ObjectId;
use vstd::prelude::*;

verus! {

/// A user as it is sent and received.
#[derive(Debug, PartialEq)]
#[non_exhaustive]
pub struct User {
    pub id: Option<ObjectId>,
    pub name: String,
    pub email: String,
}

impl Clone for User {
    fn clone(&self) -> (copy: Self)
        ensures
            copy == *self,
    {
        User { id: self.id, name: self.name.clone(), email: self.email.clone() }
    }
}

impl User {
    /// A user with the given identifier, name and email.
    pub fn new(id: Option<ObjectId>, name: String, email: String) -> (user: Self)
        ensures
            user == (User { id, name, email }),
    {
        User { id, name, email }
    }
}

/// How a request ended, where it did not end well.
#[derive(Debug, Clone, Copy, PartialEq, Eq, Structural)]
pub enum Status {
    /// The service failed; the caller is not told how.
    InternalServerError,
}

impl Status {
    /// The status code that stands for this status.
    pub open spec fn spec_code(self) -> u16 {
        500
    }

    /// The status code to answer with.
    #[verifier::when_used_as_spec(spec_code)]
    pub fn code(self) -> (code: u16)
        ensures
            code == self.spec_code(),
    {
        500
    }
}

/// The account to insert for a request to create `user`: its name and email.
/// An identifier in the request is ignored.
pub fn create_user(user: &User) -> (account: RepoUser)
    ensures
        account == (RepoUser { _id: None, name: user.name, email: user.email }),
{
    RepoUser::new(user.name.clone(), user.email.clone())
}

/// What a request to create a user is answered with, given what the insert
/// of the account returned.
pub open spec fn created(outcome: Result<Option<RepoUser>, RepoError>) -> Result<User, Status> {
    match outcome {
        Ok(Some(account)) => Ok(User { id: account._id, name: account.name, email: account.email }),
        Ok(None) => Err(Status::InternalServerError),
        Err(_) => Err(Status::InternalServerError),
    }
}

/// The answer to a request to create a user: the stored account, with the
/// identifier that the store assigned, where the insert returned one; a
/// server error where the insert failed or returned nothing.
pub fn user_created(outcome: Result<Option<RepoUser>, RepoError>) -> (answer: Result<User, Status>)
    ensures
        answer == created(outcome),
{
    match outcome {
        Ok(Some(account)) => Ok(User::new(account._id, account.name, account.email)),
        Ok(None) => Err(Status::InternalServerError),
        Err(_) => Err(Status::InternalServerError),
    }
}

} // verus!
