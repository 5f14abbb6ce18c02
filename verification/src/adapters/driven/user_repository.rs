//! The store's side of the gateway: how each question to the document
//! store is put and how each answer is read.

use crate::application::ports::user_repository::Error;
use crate::application::ports::user_repository::ErrorView;
use crate::domain::entities::user::User;
use crate::domain::entities::user::UserView;
use crate::domain::value_objects::id::uuid_text;
use crate::domain::value_objects::id::Id;
use vstd::prelude::*;

verus! {

/// The question for the records whose member `field` has the text `value`.
pub struct Filter {
    pub field: String,
    pub value: String,
}

/// A filter as plain values.
pub struct FilterView {
    pub field: Seq<char>,
    pub value: Seq<char>,
}

impl View for Filter {
    type V = FilterView;

    open spec fn view(&self) -> FilterView {
        FilterView { field: self.field@, value: self.value@ }
    }
}

/// What the store answered to a lookup, as plain values.
pub open spec fn lookup_view(answer: Result<Option<User>, String>) -> Result<
    Option<UserView>,
    Seq<char>,
> {
    match answer {
        Ok(Some(user)) => Ok(Some(user@)),
        Ok(None) => Ok(None),
        Err(detail) => Err(detail@),
    }
}

/// What the store answered to a write, as plain values.
pub open spec fn write_view(answer: Result<(), String>) -> Result<(), Seq<char>> {
    match answer {
        Ok(_) => Ok(()),
        Err(detail) => Err(detail@),
    }
}

/// What a call to the store came to, as plain values.
pub open spec fn outcome_view(outcome: Result<User, Error>) -> Result<UserView, ErrorView> {
    match outcome {
        Ok(user) => Ok(user@),
        Err(error) => Err(error@),
    }
}

/// What a lookup comes to: the record, `NotFound` where there is none, and
/// an unknown error with the store's words where the store failed.
pub open spec fn looked_up(answer: Result<Option<UserView>, Seq<char>>) -> Result<
    UserView,
    ErrorView,
> {
    match answer {
        Ok(Some(user)) => Ok(user),
        Ok(None) => Err(ErrorView::NotFound),
        Err(detail) => Err(ErrorView::Unknown(detail)),
    }
}

/// What a write of `user` comes to: the record as it was written, or an
/// unknown error with the store's words.
pub open spec fn stored(answer: Result<(), Seq<char>>, user: UserView) -> Result<
    UserView,
    ErrorView,
> {
    match answer {
        Ok(_) => Ok(user),
        Err(detail) => Err(ErrorView::Unknown(detail)),
    }
}

/// The filter that finds the record with the identifier `id`.
pub fn by_id(id: Id) -> (filter: Filter)
    ensures
        filter@ == (FilterView { field: "_id"@, value: uuid_text(id@) }),
{
    Filter { field: "_id".to_string(), value: id.to_string() }
}

/// The filter that finds the record with the address `email`.
pub fn by_email(email: &str) -> (filter: Filter)
    ensures
        filter@ == (FilterView { field: "email"@, value: email@ }),
{
    Filter { field: "email".to_string(), value: email.to_string() }
}

/// Reads the store's answer to a lookup.
pub fn found(answer: Result<Option<User>, String>) -> (r: Result<User, Error>)
    ensures
        outcome_view(r) == looked_up(lookup_view(answer)),
{
    match answer {
        Ok(Some(user)) => Ok(user),
        Ok(None) => Err(Error::NotFound),
        Err(detail) => Err(Error::Unknown(detail)),
    }
}

/// Reads the store's answer to the write of `user`.
pub fn written(answer: Result<(), String>, user: User) -> (r: Result<User, Error>)
    ensures
        outcome_view(r) == stored(write_view(answer), user@),
{
    match answer {
        Ok(_) => Ok(user),
        Err(detail) => Err(Error::Unknown(detail)),
    }
}

} // verus!
