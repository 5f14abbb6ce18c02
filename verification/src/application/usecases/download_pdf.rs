//! Fetching one document of the provider into local storage on behalf of
//! a signed-in user.
//!
//! The user's record is looked up for the stored bearer token, then the file
//! transfer is asked to fetch the document with that token. The outcome is
//! the path under which the document was stored.

use crate::application::ports::google_drive_service;
use crate::application::ports::user_repository;
use crate::domain::entities::user::User;
use crate::domain::entities::user::UserView;
use crate::domain::value_objects::id::Id;
use crate::text::join;
use vstd::prelude::*;

verus! {

/// Why a download failed.
pub enum Error {
    NotFound(String),
    ConnectionError(String),
}

/// A failure as plain values.
pub enum ErrorView {
    NotFound(Seq<char>),
    ConnectionError(Seq<char>),
}

impl View for Error {
    type V = ErrorView;

    open spec fn view(&self) -> ErrorView {
        match self {
            Error::NotFound(detail) => ErrorView::NotFound(detail@),
            Error::ConnectionError(detail) => ErrorView::ConnectionError(detail@),
        }
    }
}

impl ErrorView {
    /// The failure in words.
    pub open spec fn message(self) -> Seq<char> {
        match self {
            ErrorView::NotFound(detail) => "Not found: "@ + detail,
            ErrorView::ConnectionError(detail) => "Connection error: "@ + detail,
        }
    }
}

impl Error {
    /// The failure in words.
    pub fn to_string(&self) -> (text: String)
        ensures
            text@ == self@.message(),
    {
        match self {
            Error::NotFound(detail) => join("Not found: ", detail.as_str()),
            Error::ConnectionError(detail) => join("Connection error: ", detail.as_str()),
        }
    }
}

/// Which document to fetch, and for whom.
pub struct Payload {
    pub file_id: String,
    pub user_id: Id,
}

/// How far a download has come.
pub enum State {
    /// The store is asked for the user.
    FindingUser { file_id: String },
    /// The document is being fetched.
    Downloading,
    /// The outcome was handed out. Final.
    Finished,
}

/// A state as plain values.
pub enum StateView {
    FindingUser { file_id: Seq<char> },
    Downloading,
    Finished,
}

impl View for State {
    type V = StateView;

    open spec fn view(&self) -> StateView {
        match self {
            State::FindingUser { file_id } => StateView::FindingUser {
                file_id: file_id@,
            },
            State::Downloading => StateView::Downloading,
            State::Finished => StateView::Finished,
        }
    }
}

/// What can happen to a download.
pub enum Event {
    /// The store answered the lookup by identifier.
    UserFound(Result<User, user_repository::Error>),
    /// The transfer ended, with the local path of the document where it went well.
    Downloaded(Result<String, google_drive_service::Error>),
}

/// An event as plain values.
pub enum EventView {
    UserFound(Result<UserView, user_repository::ErrorView>),
    Downloaded(Result<Seq<char>, google_drive_service::ErrorView>),
}

impl View for Event {
    type V = EventView;

    open spec fn view(&self) -> EventView {
        match self {
            Event::UserFound(Ok(user)) => EventView::UserFound(Ok(user@)),
            Event::UserFound(Err(error)) => EventView::UserFound(Err(error@)),
            Event::Downloaded(Ok(text)) => EventView::Downloaded(Ok(text@)),
            Event::Downloaded(Err(error)) => EventView::Downloaded(Err(error@)),
        }
    }
}

/// The outcome as plain values.
pub open spec fn outcome_view(outcome: Result<String, Error>) -> Result<Seq<char>, ErrorView> {
    match outcome {
        Ok(text) => Ok(text@),
        Err(error) => Err(error@),
    }
}

/// What the caller is to do next.
pub enum Action {
    /// Ask the store for the user.
    FindUserById { user_id: Id },
    /// Fetch the document into local storage, with the user's token.
    DownloadPdf { access_token: String, file_id: String },
    /// Hand the outcome to whoever asked.
    Return(Result<String, Error>),
    /// Nothing: it is over.
    Stop,
}

/// An action as plain values.
pub enum ActionView {
    FindUserById { user_id: u128 },
    DownloadPdf { access_token: Seq<char>, file_id: Seq<char> },
    Return(Result<Seq<char>, ErrorView>),
    Stop,
}

impl View for Action {
    type V = ActionView;

    open spec fn view(&self) -> ActionView {
        match self {
            Action::FindUserById { user_id } => ActionView::FindUserById { user_id: user_id@ },
            Action::DownloadPdf { access_token, file_id } => ActionView::DownloadPdf {
                access_token: access_token@,
                file_id: file_id@,
            },
            Action::Return(outcome) => ActionView::Return(outcome_view(*outcome)),
            Action::Stop => ActionView::Stop,
        }
    }
}

/// What is said when an answer arrives that was not asked for.
pub open spec fn unexpected_event_message() -> Seq<char> {
    "Unexpected event"@
}

/// The end after a collaborator failed with `detail`.
pub open spec fn failed(detail: Seq<char>) -> (StateView, ActionView) {
    (StateView::Finished, ActionView::Return(Err(ErrorView::ConnectionError(detail))))
}

/// The first state and action.
pub open spec fn first(file_id: Seq<char>, user_id: u128) -> (StateView, ActionView) {
    (StateView::FindingUser { file_id }, ActionView::FindUserById { user_id })
}

/// The state and the action that follow `event` in `state`.
pub open spec fn next(state: StateView, event: EventView) -> (StateView, ActionView) {
    match (state, event) {
        (StateView::Finished, _) => (StateView::Finished, ActionView::Stop),
        (StateView::FindingUser { file_id }, EventView::UserFound(Ok(user))) => (
            StateView::Downloading,
            ActionView::DownloadPdf { access_token: user.access_token, file_id },
        ),
        (StateView::FindingUser { .. }, EventView::UserFound(Err(error))) => failed(
            error.message(),
        ),
        (StateView::Downloading, EventView::Downloaded(Ok(text))) => (
            StateView::Finished,
            ActionView::Return(Ok(text)),
        ),
        (StateView::Downloading, EventView::Downloaded(Err(error))) => failed(error.message()),
        _ => failed(unexpected_event_message()),
    }
}

fn fail(detail: String) -> (r: (State, Action))
    ensures
        (r.0@, r.1@) == failed(detail@),
{
    (State::Finished, Action::Return(Err(Error::ConnectionError(detail))))
}

/// Begins: the store is to be asked for the user.
pub fn start(payload: Payload) -> (r: (State, Action))
    ensures
        (r.0@, r.1@) == first(payload.file_id@, payload.user_id@),
{
    (
        State::FindingUser { file_id: payload.file_id },
        Action::FindUserById { user_id: payload.user_id },
    )
}

/// Takes one step: the state and the action that follow `event` in `state`.
pub fn execute(state: State, event: Event) -> (r: (State, Action))
    ensures
        (r.0@, r.1@) == next(state@, event@),
{
    match (state, event) {
        (State::Finished, _) => (State::Finished, Action::Stop),
        (State::FindingUser { file_id }, Event::UserFound(Ok(user))) => (
            State::Downloading,
            Action::DownloadPdf { access_token: user.access_token, file_id },
        ),
        (State::FindingUser { .. }, Event::UserFound(Err(error))) => fail(error.to_string()),
        (State::Downloading, Event::Downloaded(Ok(text))) => (
            State::Finished,
            Action::Return(Ok(text)),
        ),
        (State::Downloading, Event::Downloaded(Err(error))) => fail(error.to_string()),
        _ => fail("Unexpected event".to_string()),
    }
}

/// The provider is asked only with the token stored for the user who was
/// found, and for what the payload named.
pub proof fn lemma_provider_gets_stored_token(state: StateView, event: EventView)
    requires
        next(state, event).1 is DownloadPdf,
    ensures
        state is FindingUser,
        event is UserFound,
        event->UserFound_0 is Ok,
        next(state, event).1->access_token == event->UserFound_0->Ok_0.access_token,
        next(state, event).1->DownloadPdf_file_id == state->FindingUser_file_id,
{
}

/// A failure of the store or of the provider ends it with that failure's
/// words as the detail; nothing is asked afterwards.
pub proof fn lemma_failure_is_forwarded(state: StateView, event: EventView)
    requires
        !(state is Finished),
        match event {
            EventView::UserFound(answer) => answer is Err,
            EventView::Downloaded(answer) => answer is Err,
        },
    ensures
        next(state, event).0 is Finished,
        next(state, event).1 is Return,
        next(state, event).1->Return_0 is Err,
        next(next(state, event).0, event).1 is Stop,
{
}

} // verus!
