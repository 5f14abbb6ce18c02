//! Sending one local document to the provider as a two-part body.
//!
//! The local file is opened and read as a whole, the body is put together
//! from a JSON part that names the document and a binary part that holds
//! it, and the body is posted with its exact length. The provider's answer
//! is handed out as it came. `step` decides what is done next; the caller
//! does it.

use crate::application::ports::google_drive_service::Error;
use crate::application::ports::google_drive_service::ErrorView;
use crate::text::join;
use crate::text::join3;
use vstd::prelude::*;
use vstd::string::StringSliceAdditionalSpecFns;
use vstd::utf8::encode_utf8;

verus! {

/// The text that `serde_json` prints for an object of two members with
/// text values, `first_value` under `first_name` and `second_value` under
/// `second_name`, entered in this order.
pub uninterp spec fn json_object_text(
    first_name: Seq<char>,
    first_value: Seq<char>,
    second_name: Seq<char>,
    second_value: Seq<char>,
) -> Seq<char>;

/// The marker that separates the parts of the body.
pub open spec fn boundary() -> Seq<char> {
    "foo_bar_baz"@
}

/// Where documents are posted.
pub open spec fn upload_url() -> Seq<char> {
    "https://www.googleapis.com/upload/drive/v3/files?uploadType=multipart"@
}

/// The content type of the whole body.
pub open spec fn body_content_type() -> Seq<char> {
    "multipart/related; boundary="@ + boundary()
}

/// The JSON part for a document named `file_name`.
pub open spec fn document_metadata(file_name: Seq<char>) -> Seq<char> {
    json_object_text("name"@, file_name, "mimeType"@, "application/pdf"@)
}

/// The line that opens a part.
pub open spec fn part_opening() -> Seq<char> {
    "--"@ + boundary() + "\r\n"@
}

/// The line that closes the body.
pub open spec fn body_closing() -> Seq<char> {
    "--"@ + boundary() + "--\r\n"@
}

/// The body: the JSON part with `metadata`, then the binary part with
/// `content`, each opened by the marker and closed by a line break, then
/// the closing marker.
pub open spec fn multipart(metadata: Seq<char>, content: Seq<u8>) -> Seq<u8> {
    encode_utf8(part_opening()) + encode_utf8(
        "Content-Type: application/json; charset=UTF-8\r\n\r\n"@,
    ) + encode_utf8(metadata) + encode_utf8("\r\n"@) + encode_utf8(part_opening()) + encode_utf8(
        "Content-Type: application/pdf\r\n\r\n"@,
    ) + content + encode_utf8("\r\n"@) + encode_utf8(body_closing())
}

/// The request that posts a document.
pub struct UploadRequest {
    pub url: String,
    /// The bearer token that authorizes the request.
    pub access_token: String,
    pub content_type: String,
    /// The number of bytes of `body`.
    pub content_length: usize,
    pub body: Vec<u8>,
}

/// An upload request as plain values.
pub struct UploadRequestView {
    pub url: Seq<char>,
    pub access_token: Seq<char>,
    pub content_type: Seq<char>,
    pub content_length: nat,
    pub body: Seq<u8>,
}

impl View for UploadRequest {
    type V = UploadRequestView;

    open spec fn view(&self) -> UploadRequestView {
        UploadRequestView {
            url: self.url@,
            access_token: self.access_token@,
            content_type: self.content_type@,
            content_length: self.content_length as nat,
            body: self.body@,
        }
    }
}

/// The request that posts `content` under the name `file_name` with the
/// token `access_token`.
pub open spec fn upload_request(
    access_token: Seq<char>,
    file_name: Seq<char>,
    content: Seq<u8>,
) -> UploadRequestView {
    UploadRequestView {
        url: upload_url(),
        access_token,
        content_type: body_content_type(),
        content_length: multipart(document_metadata(file_name), content).len(),
        body: multipart(document_metadata(file_name), content),
    }
}

/// How far an upload has come.
pub enum State {
    /// The local file is being opened.
    OpeningFile { access_token: String, file_name: String },
    /// The local file is being read.
    ReadingFile { access_token: String, file_name: String },
    /// The body is on its way.
    Sending,
    /// The provider's answer is being read.
    ReadingResponse,
    /// The outcome was handed out. Final.
    Finished,
}

/// A state as plain values.
pub enum StateView {
    OpeningFile { access_token: Seq<char>, file_name: Seq<char> },
    ReadingFile { access_token: Seq<char>, file_name: Seq<char> },
    Sending,
    ReadingResponse,
    Finished,
}

impl View for State {
    type V = StateView;

    open spec fn view(&self) -> StateView {
        match self {
            State::OpeningFile { access_token, file_name } => StateView::OpeningFile {
                access_token: access_token@,
                file_name: file_name@,
            },
            State::ReadingFile { access_token, file_name } => StateView::ReadingFile {
                access_token: access_token@,
                file_name: file_name@,
            },
            State::Sending => StateView::Sending,
            State::ReadingResponse => StateView::ReadingResponse,
            State::Finished => StateView::Finished,
        }
    }
}

/// What can happen to an upload.
pub enum Event {
    /// The local file was opened, or could not be.
    FileOpened(Result<(), String>),
    /// The local file was read to its end, or could not be.
    FileRead(Result<Vec<u8>, String>),
    /// The request was answered, or could not be sent.
    RequestSent(Result<(), String>),
    /// The answer was read as text, or could not be.
    ResponseRead(Result<String, String>),
}

/// An event as plain values.
pub enum EventView {
    FileOpened(Result<(), Seq<char>>),
    FileRead(Result<Seq<u8>, Seq<char>>),
    RequestSent(Result<(), Seq<char>>),
    ResponseRead(Result<Seq<char>, Seq<char>>),
}

impl View for Event {
    type V = EventView;

    open spec fn view(&self) -> EventView {
        match self {
            Event::FileOpened(Ok(_)) => EventView::FileOpened(Ok(())),
            Event::FileOpened(Err(detail)) => EventView::FileOpened(Err(detail@)),
            Event::FileRead(Ok(content)) => EventView::FileRead(Ok(content@)),
            Event::FileRead(Err(detail)) => EventView::FileRead(Err(detail@)),
            Event::RequestSent(Ok(_)) => EventView::RequestSent(Ok(())),
            Event::RequestSent(Err(detail)) => EventView::RequestSent(Err(detail@)),
            Event::ResponseRead(Ok(answer)) => EventView::ResponseRead(Ok(answer@)),
            Event::ResponseRead(Err(detail)) => EventView::ResponseRead(Err(detail@)),
        }
    }
}

/// What the caller is to do next.
pub enum Action {
    /// Open the local file.
    OpenFile { path: String },
    /// Read the local file to its end.
    ReadFile,
    /// Post the body.
    SendRequest { request: UploadRequest },
    /// Read the provider's answer as text.
    ReadResponse,
    /// Hand out the outcome: the provider's answer, or the failure.
    Return(Result<String, Error>),
    /// Nothing: the upload is over.
    Stop,
}

/// An action as plain values.
pub enum ActionView {
    OpenFile { path: Seq<char> },
    ReadFile,
    SendRequest { request: UploadRequestView },
    ReadResponse,
    Return(Result<Seq<char>, ErrorView>),
    Stop,
}

impl View for Action {
    type V = ActionView;

    open spec fn view(&self) -> ActionView {
        match self {
            Action::OpenFile { path } => ActionView::OpenFile { path: path@ },
            Action::ReadFile => ActionView::ReadFile,
            Action::SendRequest { request } => ActionView::SendRequest { request: request@ },
            Action::ReadResponse => ActionView::ReadResponse,
            Action::Return(Ok(answer)) => ActionView::Return(Ok(answer@)),
            Action::Return(Err(error)) => ActionView::Return(Err(error@)),
            Action::Stop => ActionView::Stop,
        }
    }
}

/// The end of an upload that failed with `detail`.
pub open spec fn failed(detail: Seq<char>) -> (StateView, ActionView) {
    (StateView::Finished, ActionView::Return(Err(ErrorView::Unknown(detail))))
}

/// The first state and action of an upload.
pub open spec fn first(
    access_token: Seq<char>,
    file_name: Seq<char>,
    file_path: Seq<char>,
) -> (StateView, ActionView) {
    (StateView::OpeningFile { access_token, file_name }, ActionView::OpenFile { path: file_path })
}

/// The state and the action that follow `event` in `state`.
pub open spec fn next(state: StateView, event: EventView) -> (StateView, ActionView) {
    match (state, event) {
        (StateView::Finished, _) => (StateView::Finished, ActionView::Stop),
        (StateView::OpeningFile { access_token, file_name }, EventView::FileOpened(Ok(_))) => (
            StateView::ReadingFile { access_token, file_name },
            ActionView::ReadFile,
        ),
        (StateView::OpeningFile { .. }, EventView::FileOpened(Err(detail))) => failed(
            "Error opening file: "@ + detail,
        ),
        (StateView::ReadingFile { access_token, file_name }, EventView::FileRead(Ok(content))) => (
            StateView::Sending,
            ActionView::SendRequest { request: upload_request(access_token, file_name, content) },
        ),
        (StateView::ReadingFile { .. }, EventView::FileRead(Err(detail))) => failed(
            "Error reading file: "@ + detail,
        ),
        (StateView::Sending, EventView::RequestSent(Ok(_))) => (
            StateView::ReadingResponse,
            ActionView::ReadResponse,
        ),
        (StateView::Sending, EventView::RequestSent(Err(detail))) => failed(
            "Error sending request: "@ + detail,
        ),
        (StateView::ReadingResponse, EventView::ResponseRead(Ok(answer))) => (
            StateView::Finished,
            ActionView::Return(Ok(answer)),
        ),
        (StateView::ReadingResponse, EventView::ResponseRead(Err(detail))) => failed(
            "Error reading response: "@ + detail,
        ),
        _ => failed("Unexpected event"@),
    }
}

fn fail(detail: String) -> (r: (State, Action))
    ensures
        (r.0@, r.1@) == failed(detail@),
{
    (State::Finished, Action::Return(Err(Error::Unknown(detail))))
}

fn push_bytes(body: &mut Vec<u8>, more: &[u8])
    ensures
        final(body)@ == old(body)@ + more@,
{
    body.extend_from_slice(more);
    proof {
        assert(body@ =~= old(body)@ + more@);
    }
}

fn push_text(body: &mut Vec<u8>, text: &str)
    ensures
        final(body)@ == old(body)@ + encode_utf8(text@),
{
    push_bytes(body, text.as_bytes());
}

/// Puts the body together from the JSON part `metadata` and the binary
/// part `content`.
pub fn multipart_body(metadata: &str, content: &[u8]) -> (body: Vec<u8>)
    ensures
        body@ == multipart(metadata@, content@),
{
    let opening = join3("--", "foo_bar_baz", "\r\n");
    let closing = join3("--", "foo_bar_baz", "--\r\n");
    let mut body: Vec<u8> = Vec::new();
    push_text(&mut body, opening.as_str());
    push_text(&mut body, "Content-Type: application/json; charset=UTF-8\r\n\r\n");
    push_text(&mut body, metadata);
    push_text(&mut body, "\r\n");
    push_text(&mut body, opening.as_str());
    push_text(&mut body, "Content-Type: application/pdf\r\n\r\n");
    push_bytes(&mut body, content);
    push_text(&mut body, "\r\n");
    push_text(&mut body, closing.as_str());
    proof {
        assert(body@ =~= multipart(metadata@, content@));
    }
    body
}

/// The JSON part for a document named `file_name`.
pub fn metadata_for(file_name: &str) -> (metadata: String)
    ensures
        metadata@ == document_metadata(file_name@),
{
    json_object("name", file_name, "mimeType", "application/pdf")
}

/// The request that posts `content` under the name `file_name`.
pub fn request_for(access_token: String, file_name: &str, content: &[u8]) -> (request: UploadRequest)
    ensures
        request@ == upload_request(access_token@, file_name@, content@),
        request.content_length == request.body.len(),
{
    let metadata = metadata_for(file_name);
    let body = multipart_body(metadata.as_str(), content);
    UploadRequest {
        url: "https://www.googleapis.com/upload/drive/v3/files?uploadType=multipart".to_string(),
        access_token,
        content_type: join("multipart/related; boundary=", "foo_bar_baz"),
        content_length: body.len(),
        body,
    }
}

/// Begins an upload: the local file is to be opened.
pub fn start(access_token: String, file_name: &str, file_path: String) -> (r: (State, Action))
    ensures
        (r.0@, r.1@) == first(access_token@, file_name@, file_path@),
{
    (
        State::OpeningFile { access_token, file_name: file_name.to_string() },
        Action::OpenFile { path: file_path },
    )
}

/// Takes one step of an upload: the state and the action that follow
/// `event` in `state`.
pub fn step(state: State, event: Event) -> (r: (State, Action))
    ensures
        (r.0@, r.1@) == next(state@, event@),
        r.1 matches Action::SendRequest { request } ==> request.content_length
            == request.body.len(),
{
    match (state, event) {
        (State::Finished, _) => (State::Finished, Action::Stop),
        (State::OpeningFile { access_token, file_name }, Event::FileOpened(Ok(_))) => (
            State::ReadingFile { access_token, file_name },
            Action::ReadFile,
        ),
        (State::OpeningFile { .. }, Event::FileOpened(Err(detail))) => fail(
            join("Error opening file: ", detail.as_str()),
        ),
        (State::ReadingFile { access_token, file_name }, Event::FileRead(Ok(content))) => {
            let request = request_for(access_token, file_name.as_str(), content.as_slice());
            (State::Sending, Action::SendRequest { request })
        },
        (State::ReadingFile { .. }, Event::FileRead(Err(detail))) => fail(
            join("Error reading file: ", detail.as_str()),
        ),
        (State::Sending, Event::RequestSent(Ok(_))) => (
            State::ReadingResponse,
            Action::ReadResponse,
        ),
        (State::Sending, Event::RequestSent(Err(detail))) => fail(
            join("Error sending request: ", detail.as_str()),
        ),
        (State::ReadingResponse, Event::ResponseRead(Ok(answer))) => (
            State::Finished,
            Action::Return(Ok(answer)),
        ),
        (State::ReadingResponse, Event::ResponseRead(Err(detail))) => fail(
            join("Error reading response: ", detail.as_str()),
        ),
        _ => fail("Unexpected event".to_string()),
    }
}

/// The length that a request announces is the length of its body, and the
/// body holds the document's bytes unchanged between the two parts' frames.
pub proof fn lemma_announced_length_is_exact(
    access_token: Seq<char>,
    file_name: Seq<char>,
    content: Seq<u8>,
)
    ensures
        upload_request(access_token, file_name, content).content_length == upload_request(
            access_token,
            file_name,
            content,
        ).body.len(),
        ({
            let metadata = document_metadata(file_name);
            let head = encode_utf8(part_opening()) + encode_utf8(
                "Content-Type: application/json; charset=UTF-8\r\n\r\n"@,
            ) + encode_utf8(metadata) + encode_utf8("\r\n"@) + encode_utf8(part_opening())
                + encode_utf8("Content-Type: application/pdf\r\n\r\n"@);
            let body = upload_request(access_token, file_name, content).body;
            &&& body.len() == head.len() + content.len() + encode_utf8("\r\n"@).len()
                + encode_utf8(body_closing()).len()
            &&& body.subrange(head.len() as int, (head.len() + content.len()) as int) == content
        }),
{
    let metadata = document_metadata(file_name);
    let head = encode_utf8(part_opening()) + encode_utf8(
        "Content-Type: application/json; charset=UTF-8\r\n\r\n"@,
    ) + encode_utf8(metadata) + encode_utf8("\r\n"@) + encode_utf8(part_opening()) + encode_utf8(
        "Content-Type: application/pdf\r\n\r\n"@,
    );
    let body = upload_request(access_token, file_name, content).body;
    assert(body =~= head + content + encode_utf8("\r\n"@) + encode_utf8(body_closing()));
    assert(body.subrange(head.len() as int, (head.len() + content.len()) as int) =~= content);
}

/// The provider's answer is handed out only after the body was sent and
/// the answer was read, and then as it came.
pub proof fn lemma_answer_is_handed_out_as_read(state: StateView, event: EventView)
    requires
        next(state, event).1 matches ActionView::Return(Ok(_)),
    ensures
        state is ReadingResponse,
        event is ResponseRead,
        event->ResponseRead_0 is Ok,
        next(state, event).1 == ActionView::Return(Ok(event->ResponseRead_0->Ok_0)),
{
}

/// Calls `to_string` on a `serde_json::Value::Object` of two members with
/// text values, entered with `serde_json::Map::insert` in the order given.
/// Not proved: that the text is the one named `json_object_text`.
#[verifier::external_body]
fn json_object(first_name: &str, first_value: &str, second_name: &str, second_value: &str) -> (text: String)
    ensures
        text@ == json_object_text(first_name@, first_value@, second_name@, second_value@),
{
    let mut members = serde_json::Map::new();
    members.insert(first_name.to_string(), serde_json::Value::from(first_value));
    members.insert(second_name.to_string(), serde_json::Value::from(second_value));
    serde_json::Value::Object(members).to_string()
}

} // verus!
