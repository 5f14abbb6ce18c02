//! Handing out the URL at which the user authorizes the gateway.

use crate::adapters::driven::google_drive_service::authorize_url_text;
use crate::adapters::driven::google_drive_service::drive_scope;
use crate::adapters::driven::google_drive_service::email_scope;
use crate::adapters::driven::google_drive_service::GoogleDriveService;
use crate::application::ports::google_drive_service;
use vstd::prelude::*;

verus! {

/// Why no URL could be handed out.
pub enum Error {
    NotFound(String),
    ConnectionError(String),
}

/// A failure as plain values.
pub enum ErrorView {
    NotFound(Seq<char>),
    ConnectionError(Seq<char>),
}

impl View for Error {
    type V = ErrorView;

    open spec fn view(&self) -> ErrorView {
        match self {
            Error::NotFound(detail) => ErrorView::NotFound(detail@),
            Error::ConnectionError(detail) => ErrorView::ConnectionError(detail@),
        }
    }
}

/// The outcome as plain values.
pub open spec fn outcome_view(outcome: Result<String, Error>) -> Result<Seq<char>, ErrorView> {
    match outcome {
        Ok(url) => Ok(url@),
        Err(error) => Err(error@),
    }
}

/// What the provider's side answered, as plain values: the URL and the state it carries.
pub open spec fn answer_view(answer: Result<(String, String), google_drive_service::Error>) -> Result<
    (Seq<char>, Seq<char>),
    google_drive_service::ErrorView,
> {
    match answer {
        Ok((url, state)) => Ok((url@, state@)),
        Err(error) => Err(error@),
    }
}

/// The outcome for an answer: the URL alone, or a connection error with
/// the failure's words.
pub open spec fn handed_out(
    answer: Result<(Seq<char>, Seq<char>), google_drive_service::ErrorView>,
) -> Result<Seq<char>, ErrorView> {
    match answer {
        Ok((url, _)) => Ok(url),
        Err(error) => Err(ErrorView::ConnectionError(error.message())),
    }
}

/// Turns the answer of the provider's side into the outcome of the use case.
pub fn outcome(answer: Result<(String, String), google_drive_service::Error>) -> (r: Result<
    String,
    Error,
>)
    ensures
        outcome_view(r) == handed_out(answer_view(answer)),
{
    match answer {
        Ok((url, _)) => Ok(url),
        Err(error) => Err(Error::ConnectionError(error.to_string())),
    }
}

/// The URL at which the user authorizes the gateway. It carries a fresh
/// state value and asks for the files scope and the email scope.
pub fn execute(google_drive_service: &GoogleDriveService) -> (r: Result<String, Error>)
    ensures
        r is Ok,
        r->Ok_0@.len() > 0,
        exists|state: Seq<char>|
            state.len() == 22 && r->Ok_0@ == authorize_url_text(
                google_drive_service@.auth_url,
                google_drive_service@.client_id,
                google_drive_service@.redirect_url,
                drive_scope(),
                email_scope(),
                state,
            ),
{
    let answer = google_drive_service.get_google_auth_url();
    proof {
        let state = answer->Ok_0.1@;
        assert(state.len() == 22 && answer->Ok_0.0@ == authorize_url_text(
            google_drive_service@.auth_url,
            google_drive_service@.client_id,
            google_drive_service@.redirect_url,
            drive_scope(),
            email_scope(),
            state,
        ));
    }
    outcome(answer)
}

} // verus!
