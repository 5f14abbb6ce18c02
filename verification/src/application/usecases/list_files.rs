//! Listing the files of a folder on behalf of a signed-in user.
//!
//! The user's record is looked up for the stored bearer token, then the
//! provider is asked for the folder's children with that token.

pub mod usecase;

use crate::application::ports::google_drive_service;
use crate::application::ports::user_repository;
use crate::domain::entities::user::User;
use crate::domain::entities::user::UserView;
use crate::domain::value_objects::file_info::listing_view;
use crate::domain::value_objects::file_info::FileInfo;
use crate::domain::value_objects::file_info::FileInfoView;
use crate::domain::value_objects::id::Id;
use crate::text::join;
use vstd::prelude::*;

verus! {

/// Why a listing failed.
pub enum Error {
    /// The provider turned the stored token down: the user has to sign in
    /// again before a listing can succeed.
    GoogleUnauthenticated,
    /// The store or the provider failed in any other way.
    ConnectionError(String),
}

/// A failure as plain values.
pub enum ErrorView {
    GoogleUnauthenticated,
    ConnectionError(Seq<char>),
}

impl View for Error {
    type V = ErrorView;

    open spec fn view(&self) -> ErrorView {
        match self {
            Error::GoogleUnauthenticated => ErrorView::GoogleUnauthenticated,
            Error::ConnectionError(detail) => ErrorView::ConnectionError(detail@),
        }
    }
}

impl ErrorView {
    /// The failure in words.
    pub open spec fn message(self) -> Seq<char> {
        match self {
            ErrorView::GoogleUnauthenticated => "Connection error: "@ + token_expired_message(),
            ErrorView::ConnectionError(detail) => "Connection error: "@ + detail,
        }
    }
}

impl Error {
    /// The failure in words.
    pub fn to_string(&self) -> (text: String)
        ensures
            text@ == self@.message(),
    {
        match self {
            Error::GoogleUnauthenticated => join(
                "Connection error: ",
                "Google access token expired",
            ),
            Error::ConnectionError(detail) => join("Connection error: ", detail.as_str()),
        }
    }
}

/// Whose files to list, and of which folder.
pub struct Payload {
    /// The identifier of the folder.
    pub path: String,
    pub user_id: Id,
}

/// How far a listing has come.
pub enum State {
    /// The store is asked for the user.
    FindingUser { path: String },
    /// The provider is asked for the folder's children.
    Listing,
    /// The outcome was handed out. Final.
    Finished,
}

/// A state as plain values.
pub enum StateView {
    FindingUser { path: Seq<char> },
    Listing,
    Finished,
}

impl View for State {
    type V = StateView;

    open spec fn view(&self) -> StateView {
        match self {
            State::FindingUser { path } => StateView::FindingUser { path: path@ },
            State::Listing => StateView::Listing,
            State::Finished => StateView::Finished,
        }
    }
}

/// What can happen to a listing.
pub enum Event {
    /// The store answered the lookup by identifier.
    UserFound(Result<User, user_repository::Error>),
    /// The provider answered.
    FilesListed(Result<Vec<FileInfo>, google_drive_service::Error>),
}

/// An event as plain values.
pub enum EventView {
    UserFound(Result<UserView, user_repository::ErrorView>),
    FilesListed(Result<Seq<FileInfoView>, google_drive_service::ErrorView>),
}

impl View for Event {
    type V = EventView;

    open spec fn view(&self) -> EventView {
        match self {
            Event::UserFound(Ok(user)) => EventView::UserFound(Ok(user@)),
            Event::UserFound(Err(error)) => EventView::UserFound(Err(error@)),
            Event::FilesListed(Ok(files)) => EventView::FilesListed(Ok(listing_view(*files))),
            Event::FilesListed(Err(error)) => EventView::FilesListed(Err(error@)),
        }
    }
}

/// The outcome of a listing as plain values.
pub open spec fn outcome_view(outcome: Result<Vec<FileInfo>, Error>) -> Result<
    Seq<FileInfoView>,
    ErrorView,
> {
    match outcome {
        Ok(files) => Ok(listing_view(files)),
        Err(error) => Err(error@),
    }
}

/// What the caller is to do next.
pub enum Action {
    /// Ask the store for the user.
    FindUserById { user_id: Id },
    /// Ask the provider for the children of the folder, with the user's token.
    ListFiles { access_token: String, folder_id: String },
    /// Hand the outcome to whoever asked for the listing.
    Return(Result<Vec<FileInfo>, Error>),
    /// Nothing: the listing is over.
    Stop,
}

/// An action as plain values.
pub enum ActionView {
    FindUserById { user_id: u128 },
    ListFiles { access_token: Seq<char>, folder_id: Seq<char> },
    Return(Result<Seq<FileInfoView>, ErrorView>),
    Stop,
}

impl View for Action {
    type V = ActionView;

    open spec fn view(&self) -> ActionView {
        match self {
            Action::FindUserById { user_id } => ActionView::FindUserById { user_id: user_id@ },
            Action::ListFiles { access_token, folder_id } => ActionView::ListFiles {
                access_token: access_token@,
                folder_id: folder_id@,
            },
            Action::Return(outcome) => ActionView::Return(outcome_view(*outcome)),
            Action::Stop => ActionView::Stop,
        }
    }
}

/// What is said when the provider turns the stored token down.
pub open spec fn token_expired_message() -> Seq<char> {
    "Google access token expired"@
}

/// What is said when an answer arrives that was not asked for.
pub open spec fn unexpected_event_message() -> Seq<char> {
    "Unexpected event"@
}

/// The end of a listing that failed with `detail`.
pub open spec fn failed(detail: Seq<char>) -> (StateView, ActionView) {
    (StateView::Finished, ActionView::Return(Err(ErrorView::ConnectionError(detail))))
}

/// The first state and action of a listing.
pub open spec fn first(path: Seq<char>, user_id: u128) -> (StateView, ActionView) {
    (StateView::FindingUser { path }, ActionView::FindUserById { user_id })
}

/// The state and the action that follow `event` in `state`.
pub open spec fn next(state: StateView, event: EventView) -> (StateView, ActionView) {
    match (state, event) {
        (StateView::Finished, _) => (StateView::Finished, ActionView::Stop),
        (StateView::FindingUser { path }, EventView::UserFound(Ok(user))) => (
            StateView::Listing,
            ActionView::ListFiles { access_token: user.access_token, folder_id: path },
        ),
        (StateView::FindingUser { .. }, EventView::UserFound(Err(error))) => failed(
            error.message(),
        ),
        (StateView::Listing, EventView::FilesListed(Ok(files))) => (
            StateView::Finished,
            ActionView::Return(Ok(files)),
        ),
        (
            StateView::Listing,
            EventView::FilesListed(Err(google_drive_service::ErrorView::GoogleUnauthenticated)),
        ) => (StateView::Finished, ActionView::Return(Err(ErrorView::GoogleUnauthenticated))),
        (StateView::Listing, EventView::FilesListed(Err(error))) => failed(error.message()),
        _ => failed(unexpected_event_message()),
    }
}

fn fail(detail: String) -> (r: (State, Action))
    ensures
        (r.0@, r.1@) == failed(detail@),
{
    (State::Finished, Action::Return(Err(Error::ConnectionError(detail))))
}

/// Begins a listing: the store is to be asked for the user.
pub fn start(payload: Payload) -> (r: (State, Action))
    ensures
        (r.0@, r.1@) == first(payload.path@, payload.user_id@),
{
    (State::FindingUser { path: payload.path }, Action::FindUserById { user_id: payload.user_id })
}

/// Takes one step of a listing: the state and the action that follow
/// `event` in `state`.
pub fn execute(state: State, event: Event) -> (r: (State, Action))
    ensures
        (r.0@, r.1@) == next(state@, event@),
{
    match (state, event) {
        (State::Finished, _) => (State::Finished, Action::Stop),
        (State::FindingUser { path }, Event::UserFound(Ok(user))) => (
            State::Listing,
            Action::ListFiles { access_token: user.access_token, folder_id: path },
        ),
        (State::FindingUser { .. }, Event::UserFound(Err(error))) => fail(error.to_string()),
        (State::Listing, Event::FilesListed(Ok(files))) => (
            State::Finished,
            Action::Return(Ok(files)),
        ),
        (State::Listing, Event::FilesListed(Err(error))) => {
            match error {
                google_drive_service::Error::GoogleUnauthenticated => (
                    State::Finished,
                    Action::Return(Err(Error::GoogleUnauthenticated)),
                ),
                other => fail(other.to_string()),
            }
        },
        _ => fail("Unexpected event".to_string()),
    }
}

/// The provider is asked only with the token stored for the user who was
/// found, and only for the folder that was asked for.
pub proof fn lemma_listing_uses_stored_token(state: StateView, event: EventView)
    requires
        next(state, event).1 is ListFiles,
    ensures
        state is FindingUser,
        event is UserFound,
        event->UserFound_0 is Ok,
        next(state, event).1->access_token == event->UserFound_0->Ok_0.access_token,
        next(state, event).1->folder_id == state->path,
{
}

/// A token that the provider turned down is told apart from every other
/// failure by its kind: the listing ends with `GoogleUnauthenticated` when
/// the provider said so, and with a connection error, never with
/// `GoogleUnauthenticated`, when the provider or the store failed otherwise.
pub proof fn lemma_rejected_token_is_told_apart(state: StateView, event: EventView)
    ensures
        next(state, event).1 == ActionView::Return(Err(ErrorView::GoogleUnauthenticated))
            <==> state is Listing && event == EventView::FilesListed(
            Err(google_drive_service::ErrorView::GoogleUnauthenticated),
        ),
        state is Listing && event is FilesListed && event->FilesListed_0 is Err && !(
        event->FilesListed_0->Err_0 is GoogleUnauthenticated) ==> next(state, event).1
            == ActionView::Return(
            Err(ErrorView::ConnectionError(event->FilesListed_0->Err_0.message())),
        ),
        state is FindingUser && event is UserFound && event->UserFound_0 is Err ==> next(
            state,
            event,
        ).1 == ActionView::Return(
            Err(ErrorView::ConnectionError(event->UserFound_0->Err_0.message())),
        ),
{
}

} // verus!
