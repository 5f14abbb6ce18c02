//! The local account bound to one identity of the provider.

use crate::domain::value_objects::email::Email;
use crate::domain::value_objects::id::Id;
use crate::domain::value_objects::timestamp::Timestamp;
use vstd::prelude::*;

verus! {

/// A user record.
#[derive(PartialEq, Debug)]
pub struct User {
    /// Given at creation and never changed.
    pub id: Id,
    /// The key by which the provider identity is matched.
    pub email: Email,
    /// The provider's bearer token, replaced at every sign-in.
    pub access_token: String,
    pub created_at: Timestamp,
    /// Set at creation and at every sign-in.
    pub updated_at: Timestamp,
}

/// A user record as plain values.
pub struct UserView {
    pub id: u128,
    pub email: Seq<char>,
    pub access_token: Seq<char>,
    pub created_at: Timestamp,
    pub updated_at: Timestamp,
}

impl View for User {
    type V = UserView;

    open spec fn view(&self) -> UserView {
        UserView {
            id: self.id@,
            email: self.email@,
            access_token: self.access_token@,
            created_at: self.created_at,
            updated_at: self.updated_at,
        }
    }
}

/// The record of a user who signs in for the first time at `now`.
pub open spec fn created_user(
    id: u128,
    email: Seq<char>,
    access_token: Seq<char>,
    now: Timestamp,
) -> UserView {
    UserView { id, email, access_token, created_at: now, updated_at: now }
}

/// The record of `user` after signing in again at `now` with a new token.
pub open spec fn refreshed_user(user: UserView, access_token: Seq<char>, now: Timestamp) -> UserView {
    UserView { access_token, updated_at: now, ..user }
}

impl User {
    /// A new record under a fresh identifier, created at the present reading of the clock.
    pub fn new(email: Email, access_token: String) -> (user: Self)
        ensures
            user.id@ != 0,
            user.email@ == email@,
            user.access_token@ == access_token@,
            user.created_at == user.updated_at,
    {
        let id = Id::new();
        let now = Timestamp::now();
        User::created(id, email, access_token, now)
    }

    /// A new record under the identifier `id`, created at `now`.
    pub fn created(id: Id, email: Email, access_token: String, now: Timestamp) -> (user: Self)
        ensures
            user@ == created_user(id@, email@, access_token@, now),
    {
        User { id, email, access_token, created_at: now, updated_at: now }
    }

    /// The record after a sign-in at `now`: the token is replaced and the
    /// time of the last change moves to `now`; identifier, address and time
    /// of creation stay.
    pub fn refreshed(self, access_token: String, now: Timestamp) -> (user: Self)
        ensures
            user@ == refreshed_user(self@, access_token@, now),
    {
        User {
            id: self.id,
            email: self.email,
            access_token,
            created_at: self.created_at,
            updated_at: now,
        }
    }
}

/// A sign-in at or after the last change moves the time of change forward,
/// or leaves it where it is, and never touches the time of creation.
pub proof fn lemma_refresh_advances(user: UserView, access_token: Seq<char>, now: Timestamp)
    requires
        now.not_before(user.updated_at),
    ensures
        refreshed_user(user, access_token, now).updated_at.not_before(user.updated_at),
        refreshed_user(user, access_token, now).created_at == user.created_at,
        refreshed_user(user, access_token, now).id == user.id,
        refreshed_user(user, access_token, now).email == user.email,
{
}

impl Clone for User {
    fn clone(&self) -> (copy: Self)
        ensures
            copy@ == self@,
    {
        User {
            id: self.id,
            email: self.email.clone(),
            access_token: self.access_token.clone(),
            created_at: self.created_at,
            updated_at: self.updated_at,
        }
    }
}

} // verus!
