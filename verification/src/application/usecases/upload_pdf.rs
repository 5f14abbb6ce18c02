//! Sending one local document to the provider on behalf of a signed-in user.
//!
//! The user's record is looked up for the stored bearer token, then the file
//! transfer is asked to send the document with that token. The outcome is
//! what the provider answered.

use crate::application::ports::google_drive_service;
use crate::application::ports::user_repository;
use crate::domain::entities::user::User;
use crate::domain::entities::user::UserView;
use crate::domain::value_objects::id::Id;
use crate::text::join;
use vstd::prelude::*;

verus! {

/// Why an upload failed.
pub enum Error {
    NotFound(String),
    ConnectionError(String),
}

/// A failure as plain values.
pub enum ErrorView {
    NotFound(Seq<char>),
    ConnectionError(Seq<char>),
}

impl View for Error {
    type V = ErrorView;

    open spec fn view(&self) -> ErrorView {
        match self {
            Error::NotFound(detail) => ErrorView::NotFound(detail@),
            Error::ConnectionError(detail) => ErrorView::ConnectionError(detail@),
        }
    }
}

impl ErrorView {
    /// The failure in words.
    pub open spec fn message(self) -> Seq<char> {
        match self {
            ErrorView::NotFound(detail) => "Not found: "@ + detail,
            ErrorView::ConnectionError(detail) => "Connection error: "@ + detail,
        }
    }
}

impl Error {
    /// The failure in words.
    pub fn to_string(&self) -> (text: String)
        ensures
            text@ == self@.message(),
    {
        match self {
            Error::NotFound(detail) => join("Not found: ", detail.as_str()),
            Error::ConnectionError(detail) => join("Connection error: ", detail.as_str()),
        }
    }
}

/// Which document to send, under which name, and for whom.
pub struct Payload {
    pub file_name: String,
    pub user_id: Id,
    /// Where the document lies in local storage.
    pub file_path: String,
}

/// How far an upload has come.
pub enum State {
    /// The store is asked for the user.
    FindingUser { file_name: String, file_path: String },
    /// The document is being sent.
    Uploading,
    /// The outcome was handed out. Final.
    Finished,
}

/// A state as plain values.
pub enum StateView {
    FindingUser { file_name: Seq<char>, file_path: Seq<char> },
    Uploading,
    Finished,
}

impl View for State {
    type V = StateView;

    open spec fn view(&self) -> StateView {
        match self {
            State::FindingUser { file_name, file_path } => StateView::FindingUser {
                file_name: file_name@,
                file_path: file_path@,
            },
            State::Uploading => StateView::Uploading,
            State::Finished => StateView::Finished,
        }
    }
}

/// What can happen to an upload.
pub enum Event {
    /// The store answered the lookup by identifier.
    UserFound(Result<User, user_repository::Error>),
    /// The transfer ended, with the provider's answer where it went well.
    Uploaded(Result<String, google_drive_service::Error>),
}

/// An event as plain values.
pub enum EventView {
    UserFound(Result<UserView, user_repository::ErrorView>),
    Uploaded(Result<Seq<char>, google_drive_service::ErrorView>),
}

impl View for Event {
    type V = EventView;

    open spec fn view(&self) -> EventView {
        match self {
            Event::UserFound(Ok(user)) => EventView::UserFound(Ok(user@)),
            Event::UserFound(Err(error)) => EventView::UserFound(Err(error@)),
            Event::Uploaded(Ok(text)) => EventView::Uploaded(Ok(text@)),
            Event::Uploaded(Err(error)) => EventView::Uploaded(Err(error@)),
        }
    }
}

/// The outcome as plain values.
pub open spec fn outcome_view(outcome: Result<String, Error>) -> Result<Seq<char>, ErrorView> {
    match outcome {
        Ok(text) => Ok(text@),
        Err(error) => Err(error@),
    }
}

/// What the caller is to do next.
pub enum Action {
    /// Ask the store for the user.
    FindUserById { user_id: Id },
    /// Send the document to the provider, with the user's token.
    CreatePdf { access_token: String, file_name: String, file_path: String },
    /// Hand the outcome to whoever asked.
    Return(Result<String, Error>),
    /// Nothing: it is over.
    Stop,
}

/// An action as plain values.
pub enum ActionView {
    FindUserById { user_id: u128 },
    CreatePdf { access_token: Seq<char>, file_name: Seq<char>, file_path: Seq<char> },
    Return(Result<Seq<char>, ErrorView>),
    Stop,
}

impl View for Action {
    type V = ActionView;

    open spec fn view(&self) -> ActionView {
        match self {
            Action::FindUserById { user_id } => ActionView::FindUserById { user_id: user_id@ },
            Action::CreatePdf { access_token, file_name, file_path } => ActionView::CreatePdf {
                access_token: access_token@,
                file_name: file_name@,
                file_path: file_path@,
            },
            Action::Return(outcome) => ActionView::Return(outcome_view(*outcome)),
            Action::Stop => ActionView::Stop,
        }
    }
}

/// What is said when an answer arrives that was not asked for.
pub open spec fn unexpected_event_message() -> Seq<char> {
    "Unexpected event"@
}

/// The end after a collaborator failed with `detail`.
pub open spec fn failed(detail: Seq<char>) -> (StateView, ActionView) {
    (StateView::Finished, ActionView::Return(Err(ErrorView::ConnectionError(detail))))
}

/// The first state and action.
pub open spec fn first(file_name: Seq<char>, file_path: Seq<char>, user_id: u128) -> (StateView, ActionView) {
    (StateView::FindingUser { file_name, file_path }, ActionView::FindUserById { user_id })
}

/// The state and the action that follow `event` in `state`.
pub open spec fn next(state: StateView, event: EventView) -> (StateView, ActionView) {
    match (state, event) {
        (StateView::Finished, _) => (StateView::Finished, ActionView::Stop),
        (StateView::FindingUser { file_name, file_path }, EventView::UserFound(Ok(user))) => (
            StateView::Uploading,
            ActionView::CreatePdf { access_token: user.access_token, file_name, file_path },
        ),
        (StateView::FindingUser { .. }, EventView::UserFound(Err(error))) => failed(
            error.message(),
        ),
        (StateView::Uploading, EventView::Uploaded(Ok(text))) => (
            StateView::Finished,
            ActionView::Return(Ok(text)),
        ),
        (StateView::Uploading, EventView::Uploaded(Err(error))) => failed(error.message()),
        _ => failed(unexpected_event_message()),
    }
}

fn fail(detail: String) -> (r: (State, Action))
    ensures
        (r.0@, r.1@) == failed(detail@),
{
    (State::Finished, Action::Return(Err(Error::ConnectionError(detail))))
}

/// Begins: the store is to be asked for the user.
pub fn start(payload: Payload) -> (r: (State, Action))
    ensures
        (r.0@, r.1@) == first(payload.file_name@, payload.file_path@, payload.user_id@),
{
    (
        State::FindingUser { file_name: payload.file_name, file_path: payload.file_path },
        Action::FindUserById { user_id: payload.user_id },
    )
}

/// Takes one step: the state and the action that follow `event` in `state`.
pub fn execute(state: State, event: Event) -> (r: (State, Action))
    ensures
        (r.0@, r.1@) == next(state@, event@),
{
    match (state, event) {
        (State::Finished, _) => (State::Finished, Action::Stop),
        (State::FindingUser { file_name, file_path }, Event::UserFound(Ok(user))) => (
            State::Uploading,
            Action::CreatePdf { access_token: user.access_token, file_name, file_path },
        ),
        (State::FindingUser { .. }, Event::UserFound(Err(error))) => fail(error.to_string()),
        (State::Uploading, Event::Uploaded(Ok(text))) => (
            State::Finished,
            Action::Return(Ok(text)),
        ),
        (State::Uploading, Event::Uploaded(Err(error))) => fail(error.to_string()),
        _ => fail("Unexpected event".to_string()),
    }
}

/// The provider is asked only with the token stored for the user who was
/// found, and for what the payload named.
pub proof fn lemma_provider_gets_stored_token(state: StateView, event: EventView)
    requires
        next(state, event).1 is CreatePdf,
    ensures
        state is FindingUser,
        event is UserFound,
        event->UserFound_0 is Ok,
        next(state, event).1->access_token == event->UserFound_0->Ok_0.access_token,
        next(state, event).1->CreatePdf_file_name == state->FindingUser_file_name,
        next(state, event).1->CreatePdf_file_path == state->FindingUser_file_path,
{
}

/// A failure of the store or of the provider ends it with that failure's
/// words as the detail; nothing is asked afterwards.
pub proof fn lemma_failure_is_forwarded(state: StateView, event: EventView)
    requires
        !(state is Finished),
        match event {
            EventView::UserFound(answer) => answer is Err,
            EventView::Uploaded(answer) => answer is Err,
        },
    ensures
        next(state, event).0 is Finished,
        next(state, event).1 is Return,
        next(state, event).1->Return_0 is Err,
        next(next(state, event).0, event).1 is Stop,
{
}

} // verus!
