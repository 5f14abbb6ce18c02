//! Listing the identifiers of the files under a path, for a provider that
//! keeps the files under the user's own identifier.
//!
//! The user's record is looked up to make sure that the user exists, then
//! the provider is asked in the name of the user's identifier.

use crate::application::ports::google_drive_service;
use crate::application::ports::user_repository;
use crate::domain::entities::user::User;
use crate::domain::entities::user::UserView;
use crate::domain::value_objects::id::Id;
use vstd::prelude::*;

verus! {

/// Why a listing failed.
pub enum Error {
    NotFound(String),
    ConnectionError(String),
}

/// A failure as plain values.
pub enum ErrorView {
    NotFound(Seq<char>),
    ConnectionError(Seq<char>),
}

impl View for Error {
    type V = ErrorView;

    open spec fn view(&self) -> ErrorView {
        match self {
            Error::NotFound(detail) => ErrorView::NotFound(detail@),
            Error::ConnectionError(detail) => ErrorView::ConnectionError(detail@),
        }
    }
}

/// Whose files to list, and under which path.
pub struct Payload {
    pub path: String,
    pub user_id: Id,
}

/// Identifiers as plain values.
pub open spec fn names_view(names: Vec<String>) -> Seq<Seq<char>> {
    names@.map_values(|name: String| name@)
}

/// How far a listing has come.
pub enum State {
    /// The store is asked for the user.
    FindingUser { path: String },
    /// The provider is asked for the identifiers.
    Listing,
    /// The outcome was handed out. Final.
    Finished,
}

/// A state as plain values.
pub enum StateView {
    FindingUser { path: Seq<char> },
    Listing,
    Finished,
}

impl View for State {
    type V = StateView;

    open spec fn view(&self) -> StateView {
        match self {
            State::FindingUser { path } => StateView::FindingUser { path: path@ },
            State::Listing => StateView::Listing,
            State::Finished => StateView::Finished,
        }
    }
}

/// What can happen to a listing.
pub enum Event {
    /// The store answered the lookup by identifier.
    UserFound(Result<User, user_repository::Error>),
    /// The provider answered.
    FilesListed(Result<Vec<String>, google_drive_service::Error>),
}

/// An event as plain values.
pub enum EventView {
    UserFound(Result<UserView, user_repository::ErrorView>),
    FilesListed(Result<Seq<Seq<char>>, google_drive_service::ErrorView>),
}

impl View for Event {
    type V = EventView;

    open spec fn view(&self) -> EventView {
        match self {
            Event::UserFound(Ok(user)) => EventView::UserFound(Ok(user@)),
            Event::UserFound(Err(error)) => EventView::UserFound(Err(error@)),
            Event::FilesListed(Ok(names)) => EventView::FilesListed(Ok(names_view(*names))),
            Event::FilesListed(Err(error)) => EventView::FilesListed(Err(error@)),
        }
    }
}

/// The outcome of a listing as plain values.
pub open spec fn outcome_view(outcome: Result<Vec<String>, Error>) -> Result<
    Seq<Seq<char>>,
    ErrorView,
> {
    match outcome {
        Ok(names) => Ok(names_view(names)),
        Err(error) => Err(error@),
    }
}

/// What the caller is to do next.
pub enum Action {
    /// Ask the store for the user.
    FindUserById { user_id: Id },
    /// Ask the provider for the identifiers of the user's files under the path.
    GetFiles { user_id: Id, path: String },
    /// Hand the outcome to whoever asked for the listing.
    Return(Result<Vec<String>, Error>),
    /// Nothing: the listing is over.
    Stop,
}

/// An action as plain values.
pub enum ActionView {
    FindUserById { user_id: u128 },
    GetFiles { user_id: u128, path: Seq<char> },
    Return(Result<Seq<Seq<char>>, ErrorView>),
    Stop,
}

impl View for Action {
    type V = ActionView;

    open spec fn view(&self) -> ActionView {
        match self {
            Action::FindUserById { user_id } => ActionView::FindUserById { user_id: user_id@ },
            Action::GetFiles { user_id, path } => ActionView::GetFiles {
                user_id: user_id@,
                path: path@,
            },
            Action::Return(outcome) => ActionView::Return(outcome_view(*outcome)),
            Action::Stop => ActionView::Stop,
        }
    }
}

/// The end of a listing that failed with `detail`.
pub open spec fn failed(detail: Seq<char>) -> (StateView, ActionView) {
    (StateView::Finished, ActionView::Return(Err(ErrorView::ConnectionError(detail))))
}

/// The first state and action of a listing.
pub open spec fn first(path: Seq<char>, user_id: u128) -> (StateView, ActionView) {
    (StateView::FindingUser { path }, ActionView::FindUserById { user_id })
}

/// The state and the action that follow `event` in `state`.
pub open spec fn next(state: StateView, event: EventView) -> (StateView, ActionView) {
    match (state, event) {
        (StateView::Finished, _) => (StateView::Finished, ActionView::Stop),
        (StateView::FindingUser { path }, EventView::UserFound(Ok(user))) => (
            StateView::Listing,
            ActionView::GetFiles { user_id: user.id, path },
        ),
        (StateView::FindingUser { .. }, EventView::UserFound(Err(error))) => failed(
            error.message(),
        ),
        (StateView::Listing, EventView::FilesListed(Ok(names))) => (
            StateView::Finished,
            ActionView::Return(Ok(names)),
        ),
        (StateView::Listing, EventView::FilesListed(Err(error))) => failed(error.message()),
        _ => failed("Unexpected event"@),
    }
}

fn fail(detail: String) -> (r: (State, Action))
    ensures
        (r.0@, r.1@) == failed(detail@),
{
    (State::Finished, Action::Return(Err(Error::ConnectionError(detail))))
}

/// Begins a listing: the store is to be asked for the user.
pub fn start(payload: Payload) -> (r: (State, Action))
    ensures
        (r.0@, r.1@) == first(payload.path@, payload.user_id@),
{
    (State::FindingUser { path: payload.path }, Action::FindUserById { user_id: payload.user_id })
}

/// Takes one step of a listing: the state and the action that follow
/// `event` in `state`.
pub fn execute(state: State, event: Event) -> (r: (State, Action))
    ensures
        (r.0@, r.1@) == next(state@, event@),
{
    match (state, event) {
        (State::Finished, _) => (State::Finished, Action::Stop),
        (State::FindingUser { path }, Event::UserFound(Ok(user))) => (
            State::Listing,
            Action::GetFiles { user_id: user.id, path },
        ),
        (State::FindingUser { .. }, Event::UserFound(Err(error))) => fail(error.to_string()),
        (State::Listing, Event::FilesListed(Ok(names))) => (
            State::Finished,
            Action::Return(Ok(names)),
        ),
        (State::Listing, Event::FilesListed(Err(error))) => fail(error.to_string()),
        _ => fail("Unexpected event".to_string()),
    }
}

/// The provider is asked only in the name of a user whom the store knows,
/// and only for the path that was asked for.
pub proof fn lemma_provider_is_asked_for_a_known_user(state: StateView, event: EventView)
    requires
        next(state, event).1 is GetFiles,
    ensures
        state is FindingUser,
        event is UserFound,
        event->UserFound_0 is Ok,
        next(state, event).1->GetFiles_user_id == event->UserFound_0->Ok_0.id,
        next(state, event).1->path == state->FindingUser_path,
{
}

} // verus!
