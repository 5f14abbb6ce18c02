//! What each route answers.
//!
//! A handler that needs a collaborator or the disk is given as a first
//! action and a function from state and event to the next state and
//! action; the caller does what the action says and reports back.

use crate::adapters::driving::http::utils::responses::JsonResponse;
use crate::adapters::driving::http::utils::responses::BAD_REQUEST;
use crate::adapters::driving::http::utils::responses::INTERNAL_SERVER_ERROR;
use crate::adapters::driving::http::utils::responses::OK;
use crate::application::usecases::download_pdf;
use crate::application::usecases::get_google_auth_url;
use crate::application::usecases::handle_google_callback;
use crate::application::usecases::list_files;
use crate::application::usecases::upload_pdf;
use crate::domain::value_objects::file_info::FileInfo;
use crate::domain::value_objects::id::Id;
use crate::text::join;
use vstd::prelude::*;

verus! {

/// The status of a redirect that is to be remembered.
pub const PERMANENT_REDIRECT: u16 = 308;

/// What is said whenever nothing more is to be told.
pub open spec fn internal_error_text() -> Seq<char> {
    "Internal Server Error"@
}

/// The content type of the documents that pass through the gateway.
pub open spec fn pdf_content_type() -> Seq<char> {
    "application/pdf"@
}

/// How a client is told to show a document that is sent to it.
pub open spec fn inline_disposition() -> Seq<char> {
    "inline; filename=\"example.pdf\""@
}

/// An answer that sends the client elsewhere.
pub struct Redirect {
    pub status: u16,
    pub location: String,
}

/// What the provider's redirect carries in its query.
pub struct GoogleCallbackQuery {
    pub state: String,
    pub code: String,
    pub scope: String,
    pub authuser: String,
    pub prompt: String,
}

/// The query of a listing.
pub struct ListFilesQuery {
    pub folder_id: String,
}

/// The query of a download.
pub struct DownloadPDFQuery {
    pub file_id: String,
}

/// An answer of a status and a text.
pub struct Reply {
    pub status: u16,
    pub text: String,
}

/// A reply as plain values.
pub struct ReplyView {
    pub status: u16,
    pub text: Seq<char>,
}

impl View for Reply {
    type V = ReplyView;

    open spec fn view(&self) -> ReplyView {
        ReplyView { status: self.status, text: self.text@ }
    }
}

/// The reply to a request that the gateway could not serve.
pub open spec fn server_error(text: Seq<char>) -> ReplyView {
    ReplyView { status: INTERNAL_SERVER_ERROR, text }
}

/// The reply to a request that was not in order.
pub open spec fn bad_request(text: Seq<char>) -> ReplyView {
    ReplyView { status: BAD_REQUEST, text }
}

/// The answer to the request for the authorization URL: a permanent
/// redirect to it, or status 500.
pub fn handler_get_google_auth_url(outcome: Result<String, get_google_auth_url::Error>) -> (r: Result<
    Redirect,
    JsonResponse<String>,
>)
    ensures
        outcome matches Ok(url) ==> r is Ok && r->Ok_0.status == PERMANENT_REDIRECT
            && r->Ok_0.location@ == url@,
        outcome is Err ==> r is Err && r->Err_0.is_failure(
            INTERNAL_SERVER_ERROR,
            internal_error_text(),
            internal_error_text(),
        ),
{
    match outcome {
        Ok(url) => Ok(Redirect { status: PERMANENT_REDIRECT, location: url }),
        Err(_) => Err(JsonResponse::new_int_ser_err("Internal Server Error".to_string())),
    }
}

/// What a sign-in is begun with: the code of the redirect's query.
pub fn callback_payload(params: GoogleCallbackQuery) -> (payload: handle_google_callback::Payload)
    ensures
        payload.code@ == params.code@,
{
    handle_google_callback::Payload { code: params.code }
}

/// The answer to the provider's redirect: the session credential as data,
/// or status 500 without a word of what went wrong.
pub fn handler_handle_google_callback(outcome: Result<String, String>) -> (r: JsonResponse<String>)
    ensures
        outcome matches Ok(token) ==> r.status == OK && r.error is None && r.data is Some
            && r.data->0@ == token@,
        outcome is Err ==> r.is_failure(
            INTERNAL_SERVER_ERROR,
            internal_error_text(),
            internal_error_text(),
        ),
{
    match outcome {
        Ok(token) => JsonResponse::new_ok(token),
        Err(_) => JsonResponse::new_int_ser_err("Internal Server Error".to_string()),
    }
}

/// What a listing is begun with, or status 500 where the user's
/// identifier is nil.
pub fn list_files_payload(user_id: u128, params: ListFilesQuery) -> (r: Result<
    list_files::Payload,
    JsonResponse<Vec<FileInfo>>,
>)
    ensures
        user_id != 0 ==> r is Ok && r->Ok_0.user_id@ == user_id && r->Ok_0.path@
            == params.folder_id@,
        user_id == 0 ==> r is Err && r->Err_0.is_failure(
            INTERNAL_SERVER_ERROR,
            internal_error_text(),
            internal_error_text(),
        ),
{
    match Id::try_from(user_id) {
        Ok(user_id) => Ok(list_files::Payload { path: params.folder_id, user_id }),
        Err(_) => Err(JsonResponse::new_int_ser_err("Internal Server Error".to_string())),
    }
}

/// The answer to a listing: the files as data, or status 500 with the
/// failure's words as details.
pub fn handler_get_list_files(outcome: Result<Vec<FileInfo>, list_files::Error>) -> (r: JsonResponse<
    Vec<FileInfo>,
>)
    ensures
        outcome matches Ok(files) ==> r.is_ok_with(files),
        outcome matches Err(error) ==> r.is_failure(
            INTERNAL_SERVER_ERROR,
            internal_error_text(),
            error@.message(),
        ),
{
    match outcome {
        Ok(files) => JsonResponse::new_ok(files),
        Err(error) => JsonResponse::new_int_ser_err(error.to_string()),
    }
}

/// How far the answer to a download has come.
pub enum DownloadState {
    /// The document is being fetched into local storage.
    Downloading,
    /// The local file is being opened for sending.
    OpeningFile,
    /// The answer is out. Final.
    Finished,
}

/// What can happen while a download is answered.
pub enum DownloadEvent {
    /// The use case ended, with the local path where it went well.
    Downloaded(Result<String, download_pdf::Error>),
    /// The local file was opened, or could not be.
    FileOpened(Result<(), String>),
}

/// A download event as plain values.
pub enum DownloadEventView {
    Downloaded(Result<Seq<char>, download_pdf::ErrorView>),
    FileOpened(Result<(), Seq<char>>),
}

impl View for DownloadEvent {
    type V = DownloadEventView;

    open spec fn view(&self) -> DownloadEventView {
        match self {
            DownloadEvent::Downloaded(Ok(path)) => DownloadEventView::Downloaded(Ok(path@)),
            DownloadEvent::Downloaded(Err(error)) => DownloadEventView::Downloaded(Err(error@)),
            DownloadEvent::FileOpened(Ok(_)) => DownloadEventView::FileOpened(Ok(())),
            DownloadEvent::FileOpened(Err(detail)) => DownloadEventView::FileOpened(Err(detail@)),
        }
    }
}

/// What the caller is to do next for a download.
pub enum DownloadAction {
    /// Run the download use case.
    Download(download_pdf::Payload),
    /// Open the local file.
    OpenFile { path: String },
    /// Answer with status 200 and the opened file as the body, sent as it is read.
    SendFile { content_type: String, content_disposition: String },
    /// Answer with a status and a text.
    Respond(Reply),
    /// Nothing: the answer is out.
    Stop,
}

/// A download action as plain values.
pub enum DownloadActionView {
    Download { file_id: Seq<char>, user_id: u128 },
    OpenFile { path: Seq<char> },
    SendFile { content_type: Seq<char>, content_disposition: Seq<char> },
    Respond(ReplyView),
    Stop,
}

impl View for DownloadAction {
    type V = DownloadActionView;

    open spec fn view(&self) -> DownloadActionView {
        match self {
            DownloadAction::Download(payload) => DownloadActionView::Download {
                file_id: payload.file_id@,
                user_id: payload.user_id@,
            },
            DownloadAction::OpenFile { path } => DownloadActionView::OpenFile { path: path@ },
            DownloadAction::SendFile {
                content_type,
                content_disposition,
            } => DownloadActionView::SendFile {
                content_type: content_type@,
                content_disposition: content_disposition@,
            },
            DownloadAction::Respond(reply) => DownloadActionView::Respond(reply@),
            DownloadAction::Stop => DownloadActionView::Stop,
        }
    }
}

/// The end of a download that is answered with status 500 and `text`.
pub open spec fn download_failed(text: Seq<char>) -> (DownloadState, DownloadActionView) {
    (DownloadState::Finished, DownloadActionView::Respond(server_error(text)))
}

/// The first state and action of a download for the user `user_id`.
pub open spec fn download_first(user_id: u128, file_id: Seq<char>) -> (
    DownloadState,
    DownloadActionView,
) {
    if user_id == 0 {
        download_failed(internal_error_text())
    } else {
        (DownloadState::Downloading, DownloadActionView::Download { file_id, user_id })
    }
}

/// The state and the action that follow `event` in `state` of a download.
pub open spec fn download_next(state: DownloadState, event: DownloadEventView) -> (
    DownloadState,
    DownloadActionView,
) {
    match (state, event) {
        (DownloadState::Finished, _) => (DownloadState::Finished, DownloadActionView::Stop),
        (DownloadState::Downloading, DownloadEventView::Downloaded(Ok(path))) => (
            DownloadState::OpeningFile,
            DownloadActionView::OpenFile { path },
        ),
        (DownloadState::Downloading, DownloadEventView::Downloaded(Err(error))) => download_failed(
            error.message(),
        ),
        (DownloadState::OpeningFile, DownloadEventView::FileOpened(Ok(_))) => (
            DownloadState::Finished,
            DownloadActionView::SendFile {
                content_type: pdf_content_type(),
                content_disposition: inline_disposition(),
            },
        ),
        (DownloadState::OpeningFile, DownloadEventView::FileOpened(Err(detail))) => download_failed(
            "Error opening PDF file: "@ + detail,
        ),
        _ => download_failed("Unexpected event"@),
    }
}

fn fail_download(text: String) -> (r: (DownloadState, DownloadAction))
    ensures
        (r.0, r.1@) == download_failed(text@),
{
    (
        DownloadState::Finished,
        DownloadAction::Respond(Reply { status: INTERNAL_SERVER_ERROR, text }),
    )
}

/// Begins the answer to a download asked by the user `user_id`.
pub fn handler_download_pdf(user_id: u128, params: DownloadPDFQuery) -> (r: (
    DownloadState,
    DownloadAction,
))
    ensures
        (r.0, r.1@) == download_first(user_id, params.file_id@),
{
    match Id::try_from(user_id) {
        Ok(user_id) => (
            DownloadState::Downloading,
            DownloadAction::Download(download_pdf::Payload { file_id: params.file_id, user_id }),
        ),
        Err(_) => fail_download("Internal Server Error".to_string()),
    }
}

/// Takes one step of the answer to a download.
pub fn download_step(state: DownloadState, event: DownloadEvent) -> (r: (
    DownloadState,
    DownloadAction,
))
    ensures
        (r.0, r.1@) == download_next(state, event@),
{
    match (state, event) {
        (DownloadState::Finished, _) => (DownloadState::Finished, DownloadAction::Stop),
        (DownloadState::Downloading, DownloadEvent::Downloaded(Ok(path))) => (
            DownloadState::OpeningFile,
            DownloadAction::OpenFile { path },
        ),
        (DownloadState::Downloading, DownloadEvent::Downloaded(Err(error))) => fail_download(
            error.to_string(),
        ),
        (DownloadState::OpeningFile, DownloadEvent::FileOpened(Ok(_))) => (
            DownloadState::Finished,
            DownloadAction::SendFile {
                content_type: "application/pdf".to_string(),
                content_disposition: "inline; filename=\"example.pdf\"".to_string(),
            },
        ),
        (DownloadState::OpeningFile, DownloadEvent::FileOpened(Err(detail))) => fail_download(
            join("Error opening PDF file: ", detail.as_str()),
        ),
        _ => fail_download("Unexpected event".to_string()),
    }
}

/// What a client sent as one field of a multipart form, before its content.
pub struct FieldHead {
    pub content_type: Option<String>,
    pub file_name: Option<String>,
}

/// A field's head as plain values.
pub struct FieldHeadView {
    pub content_type: Option<Seq<char>>,
    pub file_name: Option<Seq<char>>,
}

impl View for FieldHead {
    type V = FieldHeadView;

    open spec fn view(&self) -> FieldHeadView {
        FieldHeadView {
            content_type: match self.content_type {
                Some(text) => Some(text@),
                None => None,
            },
            file_name: match self.file_name {
                Some(text) => Some(text@),
                None => None,
            },
        }
    }
}

impl FieldHeadView {
    /// The field announces a document of the one content type that is taken.
    pub open spec fn is_pdf(self) -> bool {
        self.content_type == Some(pdf_content_type())
    }
}

/// How far the answer to an upload has come.
pub enum UploadState {
    /// The first field of the form is awaited.
    AwaitingField { user_id: Id },
    /// The local file is being created.
    CreatingFile { user_id: Id, file_name: String, file_path: String },
    /// The next chunk of the field is awaited.
    ReadingChunk { user_id: Id, file_name: String, file_path: String },
    /// A chunk is being written to the local file.
    WritingChunk { user_id: Id, file_name: String, file_path: String },
    /// The document is on its way to the provider.
    Uploading,
    /// The answer is out. Final.
    Finished,
}

/// An upload state as plain values.
pub enum UploadStateView {
    AwaitingField { user_id: u128 },
    CreatingFile { user_id: u128, file_name: Seq<char>, file_path: Seq<char> },
    ReadingChunk { user_id: u128, file_name: Seq<char>, file_path: Seq<char> },
    WritingChunk { user_id: u128, file_name: Seq<char>, file_path: Seq<char> },
    Uploading,
    Finished,
}

impl View for UploadState {
    type V = UploadStateView;

    open spec fn view(&self) -> UploadStateView {
        match self {
            UploadState::AwaitingField { user_id } => UploadStateView::AwaitingField {
                user_id: user_id@,
            },
            UploadState::CreatingFile {
                user_id,
                file_name,
                file_path,
            } => UploadStateView::CreatingFile {
                user_id: user_id@,
                file_name: file_name@,
                file_path: file_path@,
            },
            UploadState::ReadingChunk {
                user_id,
                file_name,
                file_path,
            } => UploadStateView::ReadingChunk {
                user_id: user_id@,
                file_name: file_name@,
                file_path: file_path@,
            },
            UploadState::WritingChunk {
                user_id,
                file_name,
                file_path,
            } => UploadStateView::WritingChunk {
                user_id: user_id@,
                file_name: file_name@,
                file_path: file_path@,
            },
            UploadState::Uploading => UploadStateView::Uploading,
            UploadState::Finished => UploadStateView::Finished,
        }
    }
}

/// What can happen while an upload is answered.
pub enum UploadEvent {
    /// The form's next field was read, or the form has none, or reading failed.
    FieldRead(Result<Option<FieldHead>, String>),
    /// The local file was created, or could not be.
    FileCreated(Result<(), String>),
    /// A chunk of the field arrived, or the field is at its end, or reading failed.
    ChunkRead(Result<Option<Vec<u8>>, String>),
    /// The chunk was written, or could not be.
    ChunkWritten(Result<(), String>),
    /// The use case ended, with the provider's answer where it went well.
    Uploaded(Result<String, upload_pdf::Error>),
}

/// An upload event as plain values.
pub enum UploadEventView {
    FieldRead(Result<Option<FieldHeadView>, Seq<char>>),
    FileCreated(Result<(), Seq<char>>),
    ChunkRead(Result<Option<Seq<u8>>, Seq<char>>),
    ChunkWritten(Result<(), Seq<char>>),
    Uploaded(Result<Seq<char>, upload_pdf::ErrorView>),
}

impl View for UploadEvent {
    type V = UploadEventView;

    open spec fn view(&self) -> UploadEventView {
        match self {
            UploadEvent::FieldRead(Ok(Some(head))) => UploadEventView::FieldRead(Ok(Some(head@))),
            UploadEvent::FieldRead(Ok(None)) => UploadEventView::FieldRead(Ok(None)),
            UploadEvent::FieldRead(Err(detail)) => UploadEventView::FieldRead(Err(detail@)),
            UploadEvent::FileCreated(Ok(_)) => UploadEventView::FileCreated(Ok(())),
            UploadEvent::FileCreated(Err(detail)) => UploadEventView::FileCreated(Err(detail@)),
            UploadEvent::ChunkRead(Ok(Some(bytes))) => UploadEventView::ChunkRead(Ok(Some(bytes@))),
            UploadEvent::ChunkRead(Ok(None)) => UploadEventView::ChunkRead(Ok(None)),
            UploadEvent::ChunkRead(Err(detail)) => UploadEventView::ChunkRead(Err(detail@)),
            UploadEvent::ChunkWritten(Ok(_)) => UploadEventView::ChunkWritten(Ok(())),
            UploadEvent::ChunkWritten(Err(detail)) => UploadEventView::ChunkWritten(Err(detail@)),
            UploadEvent::Uploaded(Ok(answer)) => UploadEventView::Uploaded(Ok(answer@)),
            UploadEvent::Uploaded(Err(error)) => UploadEventView::Uploaded(Err(error@)),
        }
    }
}

/// What the caller is to do next for an upload.
pub enum UploadAction {
    /// Read the head of the form's next field.
    ReadField,
    /// Create the local file, empty.
    CreateFile { path: String },
    /// Read the next chunk of the field.
    ReadChunk,
    /// Append the chunk to the local file.
    WriteChunk { bytes: Vec<u8> },
    /// Run the upload use case.
    Upload(upload_pdf::Payload),
    /// Answer with a status and a text.
    Respond(Reply),
    /// Nothing: the answer is out.
    Stop,
}

/// An upload action as plain values.
pub enum UploadActionView {
    ReadField,
    CreateFile { path: Seq<char> },
    ReadChunk,
    WriteChunk { bytes: Seq<u8> },
    Upload { file_name: Seq<char>, user_id: u128, file_path: Seq<char> },
    Respond(ReplyView),
    Stop,
}

impl View for UploadAction {
    type V = UploadActionView;

    open spec fn view(&self) -> UploadActionView {
        match self {
            UploadAction::ReadField => UploadActionView::ReadField,
            UploadAction::CreateFile { path } => UploadActionView::CreateFile { path: path@ },
            UploadAction::ReadChunk => UploadActionView::ReadChunk,
            UploadAction::WriteChunk { bytes } => UploadActionView::WriteChunk { bytes: bytes@ },
            UploadAction::Upload(payload) => UploadActionView::Upload {
                file_name: payload.file_name@,
                user_id: payload.user_id@,
                file_path: payload.file_path@,
            },
            UploadAction::Respond(reply) => UploadActionView::Respond(reply@),
            UploadAction::Stop => UploadActionView::Stop,
        }
    }
}

impl UploadActionView {
    /// The action touches local storage or sends the document on.
    pub open spec fn moves_content(self) -> bool {
        self is CreateFile || self is ReadChunk || self is WriteChunk || self is Upload
    }
}

/// The end of an upload that is answered with `reply`.
pub open spec fn upload_answered(reply: ReplyView) -> (UploadStateView, UploadActionView) {
    (UploadStateView::Finished, UploadActionView::Respond(reply))
}

/// The first state and action of an upload by the user `user_id`.
pub open spec fn upload_first(user_id: u128) -> (UploadStateView, UploadActionView) {
    if user_id == 0 {
        upload_answered(server_error(internal_error_text()))
    } else {
        (UploadStateView::AwaitingField { user_id }, UploadActionView::ReadField)
    }
}

/// What follows the head of the form's first field: a field that is no
/// PDF or has no file name is refused; otherwise the local file is created
/// under the file name.
pub open spec fn upload_after_head(user_id: u128, head: FieldHeadView) -> (
    UploadStateView,
    UploadActionView,
) {
    if !head.is_pdf() {
        upload_answered(bad_request("Only PDF files are allowed!"@))
    } else {
        match head.file_name {
            None => upload_answered(bad_request("File name not provided!"@)),
            Some(file_name) => (
                UploadStateView::CreatingFile { user_id, file_name, file_path: file_name },
                UploadActionView::CreateFile { path: file_name },
            ),
        }
    }
}

/// The state and the action that follow `event` in `state` of an upload.
pub open spec fn upload_next(state: UploadStateView, event: UploadEventView) -> (
    UploadStateView,
    UploadActionView,
) {
    match (state, event) {
        (UploadStateView::Finished, _) => (UploadStateView::Finished, UploadActionView::Stop),
        (
            UploadStateView::AwaitingField { user_id },
            UploadEventView::FieldRead(Ok(Some(head))),
        ) => upload_after_head(user_id, head),
        (UploadStateView::AwaitingField { .. }, UploadEventView::FieldRead(Ok(None))) => {
            upload_answered(bad_request("No file uploaded"@))
        },
        (UploadStateView::AwaitingField { .. }, UploadEventView::FieldRead(Err(detail))) => {
            upload_answered(server_error("Error processing file: "@ + detail))
        },
        (
            UploadStateView::CreatingFile { user_id, file_name, file_path },
            UploadEventView::FileCreated(Ok(_)),
        ) => (
            UploadStateView::ReadingChunk { user_id, file_name, file_path },
            UploadActionView::ReadChunk,
        ),
        (UploadStateView::CreatingFile { .. }, UploadEventView::FileCreated(Err(detail))) => {
            upload_answered(server_error("Failed to create file: "@ + detail))
        },
        (
            UploadStateView::ReadingChunk { user_id, file_name, file_path },
            UploadEventView::ChunkRead(Ok(Some(bytes))),
        ) => (
            UploadStateView::WritingChunk { user_id, file_name, file_path },
            UploadActionView::WriteChunk { bytes },
        ),
        (
            UploadStateView::ReadingChunk { user_id, file_name, file_path },
            UploadEventView::ChunkRead(Ok(None)),
        ) => (
            UploadStateView::Uploading,
            UploadActionView::Upload { file_name, user_id, file_path },
        ),
        (UploadStateView::ReadingChunk { .. }, UploadEventView::ChunkRead(Err(detail))) => {
            upload_answered(server_error("Error while reading file: "@ + detail))
        },
        (
            UploadStateView::WritingChunk { user_id, file_name, file_path },
            UploadEventView::ChunkWritten(Ok(_)),
        ) => (
            UploadStateView::ReadingChunk { user_id, file_name, file_path },
            UploadActionView::ReadChunk,
        ),
        (UploadStateView::WritingChunk { .. }, UploadEventView::ChunkWritten(Err(detail))) => {
            upload_answered(server_error("Error while writing file: "@ + detail))
        },
        (UploadStateView::Uploading, UploadEventView::Uploaded(Ok(answer))) => upload_answered(
            ReplyView { status: OK, text: answer },
        ),
        (UploadStateView::Uploading, UploadEventView::Uploaded(Err(error))) => upload_answered(
            server_error(error.message()),
        ),
        _ => upload_answered(server_error("Unexpected event"@)),
    }
}

/// The actions that a run of events brings about in an upload, one for each event.
pub open spec fn upload_run(state: UploadStateView, events: Seq<UploadEventView>) -> Seq<
    UploadActionView,
>
    decreases events.len(),
{
    if events.len() == 0 {
        Seq::empty()
    } else {
        seq![upload_next(state, events[0]).1] + upload_run(
            upload_next(state, events[0]).0,
            events.drop_first(),
        )
    }
}

fn answer_upload(status: u16, text: String) -> (r: (UploadState, UploadAction))
    ensures
        (r.0@, r.1@) == upload_answered(ReplyView { status, text: text@ }),
{
    (UploadState::Finished, UploadAction::Respond(Reply { status, text }))
}

/// Whether the field announces a PDF.
pub fn field_is_pdf(head: &FieldHead) -> (yes: bool)
    ensures
        yes == head@.is_pdf(),
{
    match &head.content_type {
        Some(content_type) => {
            let expected = "application/pdf".to_string();
            *content_type == expected
        },
        None => false,
    }
}

/// Begins the answer to an upload by the user `user_id`.
pub fn handler_upload_pdf(user_id: u128) -> (r: (UploadState, UploadAction))
    ensures
        (r.0@, r.1@) == upload_first(user_id),
{
    match Id::try_from(user_id) {
        Ok(user_id) => (UploadState::AwaitingField { user_id }, UploadAction::ReadField),
        Err(_) => answer_upload(INTERNAL_SERVER_ERROR, "Internal Server Error".to_string()),
    }
}

/// Takes one step of the answer to an upload.
pub fn upload_step(state: UploadState, event: UploadEvent) -> (r: (UploadState, UploadAction))
    ensures
        (r.0@, r.1@) == upload_next(state@, event@),
{
    match (state, event) {
        (UploadState::Finished, _) => (UploadState::Finished, UploadAction::Stop),
        (UploadState::AwaitingField { user_id }, UploadEvent::FieldRead(Ok(Some(head)))) => {
            if !field_is_pdf(&head) {
                return answer_upload(BAD_REQUEST, "Only PDF files are allowed!".to_string());
            }
            match head.file_name {
                None => answer_upload(BAD_REQUEST, "File name not provided!".to_string()),
                Some(file_name) => {
                    let file_path = file_name.clone();
                    let path = file_name.clone();
                    (
                        UploadState::CreatingFile { user_id, file_name, file_path },
                        UploadAction::CreateFile { path },
                    )
                },
            }
        },
        (UploadState::AwaitingField { .. }, UploadEvent::FieldRead(Ok(None))) => answer_upload(
            BAD_REQUEST,
            "No file uploaded".to_string(),
        ),
        (UploadState::AwaitingField { .. }, UploadEvent::FieldRead(Err(detail))) => answer_upload(
            INTERNAL_SERVER_ERROR,
            join("Error processing file: ", detail.as_str()),
        ),
        (
            UploadState::CreatingFile { user_id, file_name, file_path },
            UploadEvent::FileCreated(Ok(_)),
        ) => (UploadState::ReadingChunk { user_id, file_name, file_path }, UploadAction::ReadChunk),
        (UploadState::CreatingFile { .. }, UploadEvent::FileCreated(Err(detail))) => answer_upload(
            INTERNAL_SERVER_ERROR,
            join("Failed to create file: ", detail.as_str()),
        ),
        (
            UploadState::ReadingChunk { user_id, file_name, file_path },
            UploadEvent::ChunkRead(Ok(Some(bytes))),
        ) => (
            UploadState::WritingChunk { user_id, file_name, file_path },
            UploadAction::WriteChunk { bytes },
        ),
        (
            UploadState::ReadingChunk { user_id, file_name, file_path },
            UploadEvent::ChunkRead(Ok(None)),
        ) => (
            UploadState::Uploading,
            UploadAction::Upload(upload_pdf::Payload { file_name, user_id, file_path }),
        ),
        (UploadState::ReadingChunk { .. }, UploadEvent::ChunkRead(Err(detail))) => answer_upload(
            INTERNAL_SERVER_ERROR,
            join("Error while reading file: ", detail.as_str()),
        ),
        (
            UploadState::WritingChunk { user_id, file_name, file_path },
            UploadEvent::ChunkWritten(Ok(_)),
        ) => (UploadState::ReadingChunk { user_id, file_name, file_path }, UploadAction::ReadChunk),
        (UploadState::WritingChunk { .. }, UploadEvent::ChunkWritten(Err(detail))) => answer_upload(
            INTERNAL_SERVER_ERROR,
            join("Error while writing file: ", detail.as_str()),
        ),
        (UploadState::Uploading, UploadEvent::Uploaded(Ok(answer))) => answer_upload(OK, answer),
        (UploadState::Uploading, UploadEvent::Uploaded(Err(error))) => answer_upload(
            INTERNAL_SERVER_ERROR,
            error.to_string(),
        ),
        _ => answer_upload(INTERNAL_SERVER_ERROR, "Unexpected event".to_string()),
    }
}

/// Once an upload is answered, nothing is done any more, whatever happens.
pub proof fn lemma_answered_upload_stays_answered(events: Seq<UploadEventView>)
    ensures
        upload_run(UploadStateView::Finished, events).len() == events.len(),
        forall|i: int|
            0 <= i < events.len() ==> upload_run(UploadStateView::Finished, events)[i] is Stop,
    decreases events.len(),
{
    if events.len() > 0 {
        lemma_answered_upload_stays_answered(events.drop_first());
        let rest = upload_run(UploadStateView::Finished, events.drop_first());
        assert forall|i: int| 0 <= i < events.len() implies upload_run(
            UploadStateView::Finished,
            events,
        )[i] is Stop by {
            if i > 0 {
                assert(upload_run(UploadStateView::Finished, events)[i] == rest[i - 1]);
            }
        }
    }
}

/// A field that is no PDF is refused with status 400 before anything is
/// stored: whatever happens afterwards, no file is created, no chunk is
/// read or written and nothing is sent to the provider.
pub proof fn lemma_refused_field_is_never_stored(
    user_id: u128,
    head: FieldHeadView,
    later: Seq<UploadEventView>,
)
    requires
        user_id != 0,
        !head.is_pdf(),
    ensures
        ({
            let events = seq![UploadEventView::FieldRead(Ok(Some(head)))] + later;
            let actions = upload_run(upload_first(user_id).0, events);
            &&& actions.len() == events.len()
            &&& actions[0] == UploadActionView::Respond(bad_request("Only PDF files are allowed!"@))
            &&& forall|i: int| 0 <= i < actions.len() ==> !(#[trigger] actions[i]).moves_content()
        }),
{
    let events = seq![UploadEventView::FieldRead(Ok(Some(head)))] + later;
    let actions = upload_run(upload_first(user_id).0, events);
    assert(events.drop_first() =~= later);
    lemma_answered_upload_stays_answered(later);
    assert forall|i: int| 0 <= i < actions.len() implies !(#[trigger] actions[i]).moves_content() by {
        if i > 0 {
            assert(actions[i] == upload_run(UploadStateView::Finished, later)[i - 1]);
        }
    }
}

/// Status 200 answers an upload only when the provider took the document,
/// and then with the provider's answer as the text.
pub proof fn lemma_success_follows_provider(state: UploadStateView, event: UploadEventView)
    requires
        upload_next(state, event).1 matches UploadActionView::Respond(reply) && reply.status == OK,
    ensures
        state is Uploading,
        event is Uploaded,
        event->Uploaded_0 is Ok,
        upload_next(state, event).1->Respond_0.text == event->Uploaded_0->Ok_0,
{
}

/// The document goes to the provider only at the end of the field, under
/// the field's file name, from the file that the chunks were written to,
/// in the name of the user who asked.
pub proof fn lemma_upload_follows_end_of_field(state: UploadStateView, event: UploadEventView)
    requires
        upload_next(state, event).1 is Upload,
    ensures
        state is ReadingChunk,
        event is ChunkRead,
        event->ChunkRead_0 == Ok::<Option<Seq<u8>>, Seq<char>>(None),
        upload_next(state, event).1->Upload_file_name == state->ReadingChunk_file_name,
        upload_next(state, event).1->Upload_file_path == state->ReadingChunk_file_path,
        upload_next(state, event).1->Upload_user_id == state->ReadingChunk_user_id,
{
}

} // verus!
