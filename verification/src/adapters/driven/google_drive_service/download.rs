//! Fetching one document from the provider into local storage, chunk by chunk.
//!
//! The document's metadata is asked for first. Only a document of the
//! expected content type is fetched: a local file is created, the content
//! is requested, and every chunk that arrives is written before the next
//! one is read, so that the document is never held in memory as a whole.
//! `step` decides what is done next; the caller does it.

use crate::adapters::driven::google_drive_service::text_view;
use crate::application::ports::google_drive_service::Error;
use crate::application::ports::google_drive_service::ErrorView;
use crate::text::join;
use crate::text::join3;
use vstd::prelude::*;

verus! {

/// The one content type that is fetched.
pub open spec fn pdf_mime() -> Seq<char> {
    "application/pdf"@
}

/// What is said of a document of another content type.
pub open spec fn not_a_pdf_message() -> Seq<char> {
    "not a pdf"@
}

/// The members of the metadata that are asked for.
pub open spec fn metadata_fields() -> Seq<char> {
    "name,mimeType"@
}

/// Where the document `file_id` is stored locally.
pub open spec fn local_path(file_id: Seq<char>) -> Seq<char> {
    "downloaded_file_"@ + file_id + ".pdf"@
}

/// Where the provider serves the document `file_id`.
pub open spec fn content_url(file_id: Seq<char>) -> Seq<char> {
    "https://www.googleapis.com/drive/v3/files/"@ + file_id
}

/// What the provider tells of a document before it is fetched.
pub struct FileMetadata {
    pub name: Option<String>,
    pub mime_type: Option<String>,
}

/// Metadata as plain values.
pub struct FileMetadataView {
    pub name: Option<Seq<char>>,
    pub mime_type: Option<Seq<char>>,
}

impl View for FileMetadata {
    type V = FileMetadataView;

    open spec fn view(&self) -> FileMetadataView {
        FileMetadataView { name: text_view(self.name), mime_type: text_view(self.mime_type) }
    }
}

impl FileMetadataView {
    /// The document is of the expected content type.
    pub open spec fn is_pdf(self) -> bool {
        self.mime_type == Some(pdf_mime())
    }
}

/// The request for a document's content.
pub struct ContentRequest {
    pub url: String,
    /// The bearer token that authorizes the request.
    pub access_token: String,
    /// The one query parameter: its name and its value.
    pub query: (String, String),
}

/// A content request as plain values.
pub struct ContentRequestView {
    pub url: Seq<char>,
    pub access_token: Seq<char>,
    pub query: (Seq<char>, Seq<char>),
}

impl View for ContentRequest {
    type V = ContentRequestView;

    open spec fn view(&self) -> ContentRequestView {
        ContentRequestView {
            url: self.url@,
            access_token: self.access_token@,
            query: (self.query.0@, self.query.1@),
        }
    }
}

/// The request for the content of `file_id` with the token `access_token`.
pub open spec fn content_request(file_id: Seq<char>, access_token: Seq<char>) -> ContentRequestView {
    ContentRequestView { url: content_url(file_id), access_token, query: ("alt"@, "media"@) }
}

/// How far a transfer has come.
pub enum State {
    /// The provider is asked for the document's metadata.
    FetchingMetadata { file_id: String, access_token: String },
    /// The local file is being created.
    CreatingFile { file_id: String, access_token: String, file_path: String },
    /// The request for the content is being sent.
    Requesting { file_path: String },
    /// The next chunk is awaited.
    ReadingChunk { file_path: String },
    /// A chunk is being written.
    WritingChunk { file_path: String },
    /// The outcome was handed out. Final.
    Finished,
}

/// A state as plain values.
pub enum StateView {
    FetchingMetadata { file_id: Seq<char>, access_token: Seq<char> },
    CreatingFile { file_id: Seq<char>, access_token: Seq<char>, file_path: Seq<char> },
    Requesting { file_path: Seq<char> },
    ReadingChunk { file_path: Seq<char> },
    WritingChunk { file_path: Seq<char> },
    Finished,
}

impl View for State {
    type V = StateView;

    open spec fn view(&self) -> StateView {
        match self {
            State::FetchingMetadata { file_id, access_token } => StateView::FetchingMetadata {
                file_id: file_id@,
                access_token: access_token@,
            },
            State::CreatingFile { file_id, access_token, file_path } => StateView::CreatingFile {
                file_id: file_id@,
                access_token: access_token@,
                file_path: file_path@,
            },
            State::Requesting { file_path } => StateView::Requesting { file_path: file_path@ },
            State::ReadingChunk { file_path } => StateView::ReadingChunk { file_path: file_path@ },
            State::WritingChunk { file_path } => StateView::WritingChunk { file_path: file_path@ },
            State::Finished => StateView::Finished,
        }
    }
}

/// What can happen to a transfer.
pub enum Event {
    /// The provider answered the question for the metadata.
    MetadataFetched(Result<FileMetadata, String>),
    /// The local file was created, or could not be.
    FileCreated(Result<(), String>),
    /// The request for the content was answered, or could not be sent.
    RequestSent(Result<(), String>),
    /// A chunk arrived, or the content is at its end, or reading failed.
    ChunkRead(Result<Option<Vec<u8>>, String>),
    /// The chunk was written, or could not be.
    ChunkWritten(Result<(), String>),
}

/// An event as plain values.
pub enum EventView {
    MetadataFetched(Result<FileMetadataView, Seq<char>>),
    FileCreated(Result<(), Seq<char>>),
    RequestSent(Result<(), Seq<char>>),
    ChunkRead(Result<Option<Seq<u8>>, Seq<char>>),
    ChunkWritten(Result<(), Seq<char>>),
}

/// The view of an answer without content.
pub open spec fn done_view(answer: Result<(), String>) -> Result<(), Seq<char>> {
    match answer {
        Ok(_) => Ok(()),
        Err(detail) => Err(detail@),
    }
}

impl View for Event {
    type V = EventView;

    open spec fn view(&self) -> EventView {
        match self {
            Event::MetadataFetched(Ok(metadata)) => EventView::MetadataFetched(Ok(metadata@)),
            Event::MetadataFetched(Err(detail)) => EventView::MetadataFetched(Err(detail@)),
            Event::FileCreated(answer) => EventView::FileCreated(done_view(*answer)),
            Event::RequestSent(answer) => EventView::RequestSent(done_view(*answer)),
            Event::ChunkRead(Ok(Some(bytes))) => EventView::ChunkRead(Ok(Some(bytes@))),
            Event::ChunkRead(Ok(None)) => EventView::ChunkRead(Ok(None)),
            Event::ChunkRead(Err(detail)) => EventView::ChunkRead(Err(detail@)),
            Event::ChunkWritten(answer) => EventView::ChunkWritten(done_view(*answer)),
        }
    }
}

/// What the caller is to do next.
pub enum Action {
    /// Ask the provider for these members of the document's metadata.
    FetchMetadata { access_token: String, file_id: String, fields: String },
    /// Create the local file, empty.
    CreateFile { path: String },
    /// Send the request for the content.
    SendRequest { request: ContentRequest },
    /// Read the next chunk of the answer.
    ReadChunk,
    /// Append the chunk to the local file.
    WriteChunk { bytes: Vec<u8> },
    /// Hand out the outcome: the local path, or the failure.
    Return(Result<String, Error>),
    /// Nothing: the transfer is over.
    Stop,
}

/// An action as plain values.
pub enum ActionView {
    FetchMetadata { access_token: Seq<char>, file_id: Seq<char>, fields: Seq<char> },
    CreateFile { path: Seq<char> },
    SendRequest { request: ContentRequestView },
    ReadChunk,
    WriteChunk { bytes: Seq<u8> },
    Return(Result<Seq<char>, ErrorView>),
    Stop,
}

impl View for Action {
    type V = ActionView;

    open spec fn view(&self) -> ActionView {
        match self {
            Action::FetchMetadata { access_token, file_id, fields } => ActionView::FetchMetadata {
                access_token: access_token@,
                file_id: file_id@,
                fields: fields@,
            },
            Action::CreateFile { path } => ActionView::CreateFile { path: path@ },
            Action::SendRequest { request } => ActionView::SendRequest { request: request@ },
            Action::ReadChunk => ActionView::ReadChunk,
            Action::WriteChunk { bytes } => ActionView::WriteChunk { bytes: bytes@ },
            Action::Return(Ok(path)) => ActionView::Return(Ok(path@)),
            Action::Return(Err(error)) => ActionView::Return(Err(error@)),
            Action::Stop => ActionView::Stop,
        }
    }
}

impl ActionView {
    /// The action reaches for the document's content or touches local storage.
    pub open spec fn moves_content(self) -> bool {
        self is CreateFile || self is SendRequest || self is ReadChunk || self is WriteChunk
    }
}

/// The end of a transfer that failed with `detail`.
pub open spec fn failed(detail: Seq<char>) -> (StateView, ActionView) {
    (StateView::Finished, ActionView::Return(Err(ErrorView::Unknown(detail))))
}

/// The first state and action of a transfer.
pub open spec fn first(access_token: Seq<char>, file_id: Seq<char>) -> (StateView, ActionView) {
    (
        StateView::FetchingMetadata { file_id, access_token },
        ActionView::FetchMetadata { access_token, file_id, fields: metadata_fields() },
    )
}

/// The state and the action that follow `event` in `state`.
pub open spec fn next(state: StateView, event: EventView) -> (StateView, ActionView) {
    match (state, event) {
        (StateView::Finished, _) => (StateView::Finished, ActionView::Stop),
        (
            StateView::FetchingMetadata { file_id, access_token },
            EventView::MetadataFetched(Ok(metadata)),
        ) => if metadata.is_pdf() {
            (
                StateView::CreatingFile { file_id, access_token, file_path: local_path(file_id) },
                ActionView::CreateFile { path: local_path(file_id) },
            )
        } else {
            failed(not_a_pdf_message())
        },
        (StateView::FetchingMetadata { .. }, EventView::MetadataFetched(Err(detail))) => failed(
            detail,
        ),
        (
            StateView::CreatingFile { file_id, access_token, file_path },
            EventView::FileCreated(Ok(_)),
        ) => (
            StateView::Requesting { file_path },
            ActionView::SendRequest { request: content_request(file_id, access_token) },
        ),
        (StateView::CreatingFile { .. }, EventView::FileCreated(Err(detail))) => failed(
            "Error creating file: "@ + detail,
        ),
        (StateView::Requesting { file_path }, EventView::RequestSent(Ok(_))) => (
            StateView::ReadingChunk { file_path },
            ActionView::ReadChunk,
        ),
        (StateView::Requesting { .. }, EventView::RequestSent(Err(detail))) => failed(
            "Error sending request: "@ + detail,
        ),
        (StateView::ReadingChunk { file_path }, EventView::ChunkRead(Ok(Some(bytes)))) => (
            StateView::WritingChunk { file_path },
            ActionView::WriteChunk { bytes },
        ),
        (StateView::ReadingChunk { file_path }, EventView::ChunkRead(Ok(None))) => (
            StateView::Finished,
            ActionView::Return(Ok(file_path)),
        ),
        (StateView::ReadingChunk { .. }, EventView::ChunkRead(Err(detail))) => failed(
            "Error reading chunk: "@ + detail,
        ),
        (StateView::WritingChunk { file_path }, EventView::ChunkWritten(Ok(_))) => (
            StateView::ReadingChunk { file_path },
            ActionView::ReadChunk,
        ),
        (StateView::WritingChunk { .. }, EventView::ChunkWritten(Err(detail))) => failed(
            "Error writing to file: "@ + detail,
        ),
        _ => failed("Unexpected event"@),
    }
}

/// The actions that a run of events brings about, one for each event.
pub open spec fn run(state: StateView, events: Seq<EventView>) -> Seq<ActionView>
    decreases events.len(),
{
    if events.len() == 0 {
        Seq::empty()
    } else {
        seq![next(state, events[0]).1] + run(next(state, events[0]).0, events.drop_first())
    }
}

fn fail(detail: String) -> (r: (State, Action))
    ensures
        (r.0@, r.1@) == failed(detail@),
{
    (State::Finished, Action::Return(Err(Error::Unknown(detail))))
}

/// Whether the metadata names the expected content type.
pub fn is_pdf(metadata: &FileMetadata) -> (yes: bool)
    ensures
        yes == metadata@.is_pdf(),
{
    match &metadata.mime_type {
        Some(mime_type) => {
            let expected = "application/pdf".to_string();
            *mime_type == expected
        },
        None => false,
    }
}

/// Begins a transfer: the provider is to be asked for the metadata.
pub fn start(access_token: String, file_id: &str) -> (r: (State, Action))
    ensures
        (r.0@, r.1@) == first(access_token@, file_id@),
{
    let token = access_token.clone();
    (
        State::FetchingMetadata { file_id: file_id.to_string(), access_token },
        Action::FetchMetadata {
            access_token: token,
            file_id: file_id.to_string(),
            fields: "name,mimeType".to_string(),
        },
    )
}

/// Takes one step of a transfer: the state and the action that follow
/// `event` in `state`.
pub fn step(state: State, event: Event) -> (r: (State, Action))
    ensures
        (r.0@, r.1@) == next(state@, event@),
{
    match (state, event) {
        (State::Finished, _) => (State::Finished, Action::Stop),
        (State::FetchingMetadata { file_id, access_token }, Event::MetadataFetched(Ok(metadata))) => {
            if is_pdf(&metadata) {
                let file_path = join3("downloaded_file_", file_id.as_str(), ".pdf");
                let path = file_path.clone();
                (State::CreatingFile { file_id, access_token, file_path }, Action::CreateFile { path })
            } else {
                fail("not a pdf".to_string())
            }
        },
        (State::FetchingMetadata { .. }, Event::MetadataFetched(Err(detail))) => fail(detail),
        (State::CreatingFile { file_id, access_token, file_path }, Event::FileCreated(Ok(_))) => {
            let request = ContentRequest {
                url: join("https://www.googleapis.com/drive/v3/files/", file_id.as_str()),
                access_token,
                query: ("alt".to_string(), "media".to_string()),
            };
            (State::Requesting { file_path }, Action::SendRequest { request })
        },
        (State::CreatingFile { .. }, Event::FileCreated(Err(detail))) => fail(
            join("Error creating file: ", detail.as_str()),
        ),
        (State::Requesting { file_path }, Event::RequestSent(Ok(_))) => (
            State::ReadingChunk { file_path },
            Action::ReadChunk,
        ),
        (State::Requesting { .. }, Event::RequestSent(Err(detail))) => fail(
            join("Error sending request: ", detail.as_str()),
        ),
        (State::ReadingChunk { file_path }, Event::ChunkRead(Ok(Some(bytes)))) => (
            State::WritingChunk { file_path },
            Action::WriteChunk { bytes },
        ),
        (State::ReadingChunk { file_path }, Event::ChunkRead(Ok(None))) => (
            State::Finished,
            Action::Return(Ok(file_path)),
        ),
        (State::ReadingChunk { .. }, Event::ChunkRead(Err(detail))) => fail(
            join("Error reading chunk: ", detail.as_str()),
        ),
        (State::WritingChunk { file_path }, Event::ChunkWritten(Ok(_))) => (
            State::ReadingChunk { file_path },
            Action::ReadChunk,
        ),
        (State::WritingChunk { .. }, Event::ChunkWritten(Err(detail))) => fail(
            join("Error writing to file: ", detail.as_str()),
        ),
        _ => fail("Unexpected event".to_string()),
    }
}

/// Once a transfer is over, nothing is done any more, whatever happens.
pub proof fn lemma_finished_stays_finished(events: Seq<EventView>)
    ensures
        run(StateView::Finished, events).len() == events.len(),
        forall|i: int| 0 <= i < events.len() ==> run(StateView::Finished, events)[i] is Stop,
    decreases events.len(),
{
    if events.len() > 0 {
        lemma_finished_stays_finished(events.drop_first());
        let rest = run(StateView::Finished, events.drop_first());
        assert forall|i: int| 0 <= i < events.len() implies run(StateView::Finished, events)[i]
            is Stop by {
            if i > 0 {
                assert(run(StateView::Finished, events)[i] == rest[i - 1]);
            }
        }
    }
}

/// A document that is not of the expected content type is turned down
/// before anything is fetched: the transfer ends with the refusal, and
/// whatever happens afterwards, no file is created, no content is requested
/// and no chunk is read or written.
pub proof fn lemma_refused_document_is_never_fetched(
    access_token: Seq<char>,
    file_id: Seq<char>,
    metadata: FileMetadataView,
    later: Seq<EventView>,
)
    requires
        !metadata.is_pdf(),
    ensures
        first(access_token, file_id).1 is FetchMetadata,
        ({
            let events = seq![EventView::MetadataFetched(Ok(metadata))] + later;
            let actions = run(first(access_token, file_id).0, events);
            &&& actions.len() == events.len()
            &&& actions[0] == ActionView::Return(Err(ErrorView::Unknown(not_a_pdf_message())))
            &&& forall|i: int| 0 <= i < actions.len() ==> !(#[trigger] actions[i]).moves_content()
        }),
{
    let events = seq![EventView::MetadataFetched(Ok(metadata))] + later;
    let actions = run(first(access_token, file_id).0, events);
    assert(events.drop_first() =~= later);
    lemma_finished_stays_finished(later);
    assert forall|i: int| 0 <= i < actions.len() implies !(#[trigger] actions[i]).moves_content() by {
        if i > 0 {
            assert(actions[i] == run(StateView::Finished, later)[i - 1]);
        }
    }
}

/// Content is requested only after the metadata named the expected content
/// type and the local file was created, and then with the caller's token.
pub proof fn lemma_request_follows_accepted_metadata(state: StateView, event: EventView)
    requires
        next(state, event).1 is SendRequest,
    ensures
        state is CreatingFile,
        event is FileCreated,
        event->FileCreated_0 is Ok,
        next(state, event).1->request == content_request(
            state->CreatingFile_file_id,
            state->CreatingFile_access_token,
        ),
{
}

/// Every chunk that arrives is written as it came before the next is read,
/// and the transfer succeeds only at the end of the content, with the path
/// of the local file.
pub proof fn lemma_chunks_are_written_as_read(file_path: Seq<char>, bytes: Seq<u8>)
    ensures
        next(StateView::ReadingChunk { file_path }, EventView::ChunkRead(Ok(Some(bytes)))) == (
            StateView::WritingChunk { file_path },
            ActionView::WriteChunk { bytes },
        ),
        next(StateView::WritingChunk { file_path }, EventView::ChunkWritten(Ok(()))) == (
            StateView::ReadingChunk { file_path },
            ActionView::ReadChunk,
        ),
        next(StateView::ReadingChunk { file_path }, EventView::ChunkRead(Ok(None))) == (
            StateView::Finished,
            ActionView::Return(Ok(file_path)),
        ),
{
}

/// A successful outcome comes only at the end of the content.
pub proof fn lemma_success_follows_end_of_content(state: StateView, event: EventView)
    requires
        next(state, event).1 matches ActionView::Return(Ok(_)),
    ensures
        state is ReadingChunk,
        event == EventView::ChunkRead(Ok(None)),
        next(state, event).1 == ActionView::Return(Ok(state->ReadingChunk_file_path)),
{
}

} // verus!
