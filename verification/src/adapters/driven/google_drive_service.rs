//! The provider's side of the gateway: how each request to the provider is
//! put and how each answer is read.

pub mod download;
pub mod upload;

use crate::application::ports::google_drive_service::Error;
use crate::application::ports::google_drive_service::ErrorView;
use crate::domain::value_objects::file_info::listing_view;
use crate::domain::value_objects::file_info::FileInfo;
use crate::domain::value_objects::file_info::FileInfoView;
use crate::domain::value_objects::timestamp::Timestamp;
use crate::text::contains_text;
use crate::text::has_text;
use crate::text::join3;
use vstd::prelude::*;

verus! {

/// Whether `url` accepts `text` as a URL.
pub uninterp spec fn url_parses(text: Seq<char>) -> bool;

/// The authorization URL that `oauth2` builds for a client with the
/// identifier `client_id` and the redirect URL `redirect_url` at the
/// endpoint `auth_url`, asking for the two scopes and carrying `state`.
pub uninterp spec fn authorize_url_text(
    auth_url: Seq<char>,
    client_id: Seq<char>,
    redirect_url: Seq<char>,
    first_scope: Seq<char>,
    second_scope: Seq<char>,
    state: Seq<char>,
) -> Seq<char>;

/// The scope that lets the gateway read and write the user's files.
pub open spec fn drive_scope() -> Seq<char> {
    "https://www.googleapis.com/auth/drive"@
}

/// The scope that lets the gateway learn the account's email address.
pub open spec fn email_scope() -> Seq<char> {
    "https://www.googleapis.com/auth/userinfo.email"@
}

/// Where the provider tells the address of a token's account.
pub open spec fn userinfo_url() -> Seq<char> {
    "https://www.googleapis.com/oauth2/v3/userinfo"@
}

/// The word by which the provider says that it turned a token down.
pub open spec fn unauthenticated_mark() -> Seq<char> {
    "UNAUTHENTICATED"@
}

/// How many files one listing asks for at most.
pub const PAGE_SIZE: i32 = 100;

/// The registration of the gateway as a client of the provider.
pub struct GoogleDriveService {
    client_id: String,
    client_secret: String,
    auth_url: String,
    token_url: String,
    redirect_url: String,
}

/// A registration as plain values.
pub struct GoogleDriveServiceView {
    pub client_id: Seq<char>,
    pub client_secret: Seq<char>,
    pub auth_url: Seq<char>,
    pub token_url: Seq<char>,
    pub redirect_url: Seq<char>,
}

impl View for GoogleDriveService {
    type V = GoogleDriveServiceView;

    closed spec fn view(&self) -> GoogleDriveServiceView {
        GoogleDriveServiceView {
            client_id: self.client_id@,
            client_secret: self.client_secret@,
            auth_url: self.auth_url@,
            token_url: self.token_url@,
            redirect_url: self.redirect_url@,
        }
    }
}

impl GoogleDriveServiceView {
    /// The three URLs of the registration are URLs.
    pub open spec fn usable(self) -> bool {
        url_parses(self.auth_url) && url_parses(self.token_url) && url_parses(self.redirect_url)
    }
}

/// One file as the provider lists it. Every member may be missing.
pub struct DriveFile {
    pub id: Option<String>,
    pub name: Option<String>,
    pub mime_type: Option<String>,
    pub created_time: Option<Timestamp>,
}

/// A file of the provider as plain values.
pub struct DriveFileView {
    pub id: Option<Seq<char>>,
    pub name: Option<Seq<char>>,
    pub mime_type: Option<Seq<char>>,
    pub created_time: Option<Timestamp>,
}

/// Optional text as plain values.
pub open spec fn text_view(text: Option<String>) -> Option<Seq<char>> {
    match text {
        Some(text) => Some(text@),
        None => None,
    }
}

impl View for DriveFile {
    type V = DriveFileView;

    open spec fn view(&self) -> DriveFileView {
        DriveFileView {
            id: text_view(self.id),
            name: text_view(self.name),
            mime_type: text_view(self.mime_type),
            created_time: self.created_time,
        }
    }
}

impl DriveFileView {
    /// The file can be listed: it has an identifier and a name.
    pub open spec fn complete(self) -> bool {
        self.id is Some && self.name is Some
    }

    /// The file as it is listed to the client. A missing content type is
    /// listed as the empty text.
    pub open spec fn listed(self) -> FileInfoView {
        FileInfoView {
            id: self.id->0,
            name: self.name->0,
            file_type: match self.mime_type {
                Some(mime_type) => mime_type,
                None => Seq::empty(),
            },
            created_at: self.created_time,
        }
    }
}

/// Every file of the listing can be listed.
pub open spec fn all_complete(files: Seq<DriveFileView>) -> bool {
    forall|i: int| 0 <= i < files.len() ==> (#[trigger] files[i]).complete()
}

/// What is said of a listing that holds a file without identifier or name.
pub open spec fn incomplete_file_message() -> Seq<char> {
    "File without id or name"@
}

/// A listing of the provider as plain values.
pub open spec fn drive_files_view(files: Vec<DriveFile>) -> Seq<DriveFileView> {
    files@.map_values(|file: DriveFile| file@)
}

/// How a listing can fail at the provider.
pub enum ListFailure {
    /// The provider did not accept the request; the text is its answer.
    BadRequest(String),
    /// Anything else, in words.
    Other(String),
}

/// A listing failure as plain values.
pub enum ListFailureView {
    BadRequest(Seq<char>),
    Other(Seq<char>),
}

impl View for ListFailure {
    type V = ListFailureView;

    open spec fn view(&self) -> ListFailureView {
        match self {
            ListFailure::BadRequest(answer) => ListFailureView::BadRequest(answer@),
            ListFailure::Other(detail) => ListFailureView::Other(detail@),
        }
    }
}

impl ListFailureView {
    /// The failure as the use cases see it. A refused request whose answer
    /// holds the mark is a token turned down; every other failure is
    /// unknown, with the text as it came.
    pub open spec fn classified(self) -> ErrorView {
        match self {
            ListFailureView::BadRequest(answer) => if has_text(answer, unauthenticated_mark()) {
                ErrorView::GoogleUnauthenticated
            } else {
                ErrorView::Unknown(answer)
            },
            ListFailureView::Other(detail) => ErrorView::Unknown(detail),
        }
    }
}

/// What is asked of the provider for a listing.
pub struct ListQuery {
    /// The search expression.
    pub q: String,
    pub page_size: i32,
    pub scope: String,
    /// The members of each file that the provider is to send.
    pub fields: String,
}

/// A listing query as plain values.
pub struct ListQueryView {
    pub q: Seq<char>,
    pub page_size: int,
    pub scope: Seq<char>,
    pub fields: Seq<char>,
}

impl View for ListQuery {
    type V = ListQueryView;

    open spec fn view(&self) -> ListQueryView {
        ListQueryView {
            q: self.q@,
            page_size: self.page_size as int,
            scope: self.scope@,
            fields: self.fields@,
        }
    }
}

/// The query for the children of `folder_id`: one page of at most
/// `PAGE_SIZE` files, by identifier, name, content type and time of creation.
pub open spec fn children_query(folder_id: Seq<char>) -> ListQueryView {
    ListQueryView {
        q: "'"@ + folder_id + "' in parents"@,
        page_size: PAGE_SIZE as int,
        scope: "https://www.googleapis.com/auth/drive.metadata.readonly"@,
        fields: "files(id, name, mimeType, createdTime)"@,
    }
}

/// What a call to the provider that yields text came to.
pub open spec fn text_outcome_view(outcome: Result<String, Error>) -> Result<Seq<char>, ErrorView> {
    match outcome {
        Ok(text) => Ok(text@),
        Err(error) => Err(error@),
    }
}

/// What the transport reported of a call that yields text.
pub open spec fn raw_outcome_view(outcome: Result<String, String>) -> Result<Seq<char>, Seq<char>> {
    match outcome {
        Ok(text) => Ok(text@),
        Err(detail) => Err(detail@),
    }
}

/// Text on success, and on failure an unknown error with the detail as it came.
pub open spec fn forwarded(outcome: Result<Seq<char>, Seq<char>>) -> Result<Seq<char>, ErrorView> {
    match outcome {
        Ok(text) => Ok(text),
        Err(detail) => Err(ErrorView::Unknown(detail)),
    }
}

/// What a listing came to, as plain values.
pub open spec fn listing_outcome_view(outcome: Result<Vec<FileInfo>, Error>) -> Result<
    Seq<FileInfoView>,
    ErrorView,
> {
    match outcome {
        Ok(files) => Ok(listing_view(files)),
        Err(error) => Err(error@),
    }
}

/// What the provider answered to a listing, as plain values.
pub open spec fn listing_answer_view(answer: Result<Vec<DriveFile>, ListFailure>) -> Result<
    Seq<DriveFileView>,
    ListFailureView,
> {
    match answer {
        Ok(files) => Ok(drive_files_view(files)),
        Err(failure) => Err(failure@),
    }
}

/// What a listing comes to: the files as they are listed, in the
/// provider's order, or the failure classified. A listing that holds a file
/// without identifier or name is an unknown failure as a whole.
pub open spec fn listed_files(answer: Result<Seq<DriveFileView>, ListFailureView>) -> Result<
    Seq<FileInfoView>,
    ErrorView,
> {
    match answer {
        Ok(files) => if all_complete(files) {
            Ok(files.map_values(|file: DriveFileView| file.listed()))
        } else {
            Err(ErrorView::Unknown(incomplete_file_message()))
        },
        Err(failure) => Err(failure.classified()),
    }
}

impl GoogleDriveService {
    #[verifier::type_invariant]
    spec fn well_formed(self) -> bool {
        url_parses(self.auth_url@) && url_parses(self.token_url@) && url_parses(
            self.redirect_url@,
        )
    }

    /// The registration with these settings. The three URLs have to be URLs.
    pub fn new(
        client_id: String,
        client_secret: String,
        auth_url: String,
        token_url: String,
        redirect_url: String,
    ) -> (service: Self)
        requires
            url_parses(auth_url@),
            url_parses(token_url@),
            url_parses(redirect_url@),
        ensures
            service@ == (GoogleDriveServiceView {
                client_id: client_id@,
                client_secret: client_secret@,
                auth_url: auth_url@,
                token_url: token_url@,
                redirect_url: redirect_url@,
            }),
    {
        GoogleDriveService { client_id, client_secret, auth_url, token_url, redirect_url }
    }

    /// The registration with these settings, or nothing where one of the
    /// three URLs is no URL.
    pub fn try_new(
        client_id: String,
        client_secret: String,
        auth_url: String,
        token_url: String,
        redirect_url: String,
    ) -> (service: Option<Self>)
        ensures
            service is Some <==> url_parses(auth_url@) && url_parses(token_url@) && url_parses(
                redirect_url@,
            ),
            service is Some ==> service->Some_0@ == (GoogleDriveServiceView {
                client_id: client_id@,
                client_secret: client_secret@,
                auth_url: auth_url@,
                token_url: token_url@,
                redirect_url: redirect_url@,
            }),
    {
        if is_url(auth_url.as_str()) && is_url(token_url.as_str()) && is_url(
            redirect_url.as_str(),
        ) {
            Some(GoogleDriveService::new(client_id, client_secret, auth_url, token_url, redirect_url))
        } else {
            None
        }
    }

    pub fn client_id(&self) -> (text: &str)
        ensures
            text@ == self@.client_id,
    {
        self.client_id.as_str()
    }

    pub fn client_secret(&self) -> (text: &str)
        ensures
            text@ == self@.client_secret,
    {
        self.client_secret.as_str()
    }

    pub fn auth_url(&self) -> (text: &str)
        ensures
            text@ == self@.auth_url,
            url_parses(text@),
    {
        proof {
            use_type_invariant(self);
        }
        self.auth_url.as_str()
    }

    pub fn token_url(&self) -> (text: &str)
        ensures
            text@ == self@.token_url,
            url_parses(text@),
    {
        proof {
            use_type_invariant(self);
        }
        self.token_url.as_str()
    }

    pub fn redirect_url(&self) -> (text: &str)
        ensures
            text@ == self@.redirect_url,
            url_parses(text@),
    {
        proof {
            use_type_invariant(self);
        }
        self.redirect_url.as_str()
    }

    /// The URL to which the user is sent to authorize the gateway, and the
    /// fresh state value that it carries against forged redirects.
    ///
    /// The URL asks for the files scope and for the email scope. It never fails.
    pub fn get_google_auth_url(&self) -> (r: Result<(String, String), Error>)
        ensures
            r is Ok,
            r->Ok_0.0@.len() > 0,
            r->Ok_0.1@.len() == 22,
            r->Ok_0.0@ == authorize_url_text(
                self@.auth_url,
                self@.client_id,
                self@.redirect_url,
                drive_scope(),
                email_scope(),
                r->Ok_0.1@,
            ),
    {
        let state = random_state();
        let url = self.auth_url_with_state(state.as_str());
        Ok((url, state))
    }

    /// The authorization URL that carries `state`.
    pub fn auth_url_with_state(&self, state: &str) -> (url: String)
        ensures
            url@.len() > 0,
            url@ == authorize_url_text(
                self@.auth_url,
                self@.client_id,
                self@.redirect_url,
                drive_scope(),
                email_scope(),
                state@,
            ),
    {
        proof {
            use_type_invariant(self);
        }
        let url = authorization_url(
            self.auth_url.as_str(),
            self.client_id.as_str(),
            self.redirect_url.as_str(),
            "https://www.googleapis.com/auth/drive",
            "https://www.googleapis.com/auth/userinfo.email",
            state,
        );
        url.unwrap()
    }

    /// What the exchange of an authorization code came to: the bearer
    /// token, or an unknown error with the transport's words.
    pub fn handle_google_callback(&self, exchanged: Result<String, String>) -> (r: Result<
        String,
        Error,
    >)
        ensures
            text_outcome_view(r) == forwarded(raw_outcome_view(exchanged)),
    {
        match exchanged {
            Ok(access_token) => Ok(access_token),
            Err(detail) => Err(Error::Unknown(detail)),
        }
    }

    /// Where to ask for the address of a token's account.
    pub fn email_endpoint(&self) -> (url: String)
        ensures
            url@ == userinfo_url(),
    {
        "https://www.googleapis.com/oauth2/v3/userinfo".to_string()
    }

    /// What the question for the account's address came to: the address,
    /// or an unknown error with the transport's or the parser's words.
    pub fn get_google_email(&self, answered: Result<String, String>) -> (r: Result<String, Error>)
        ensures
            text_outcome_view(r) == forwarded(raw_outcome_view(answered)),
    {
        match answered {
            Ok(email) => Ok(email),
            Err(detail) => Err(Error::Unknown(detail)),
        }
    }

    /// The query for the children of the folder `folder_id`.
    pub fn list_files_query(&self, folder_id: &str) -> (query: ListQuery)
        ensures
            query@ == children_query(folder_id@),
    {
        ListQuery {
            q: join3("'", folder_id, "' in parents"),
            page_size: PAGE_SIZE,
            scope: "https://www.googleapis.com/auth/drive.metadata.readonly".to_string(),
            fields: "files(id, name, mimeType, createdTime)".to_string(),
        }
    }

    /// What a listing came to.
    pub fn list_files(&self, answer: Result<Vec<DriveFile>, ListFailure>) -> (r: Result<
        Vec<FileInfo>,
        Error,
    >)
        ensures
            listing_outcome_view(r) == listed_files(listing_answer_view(answer)),
    {
        match answer {
            Ok(files) => list_all(files),
            Err(failure) => Err(classify(failure)),
        }
    }
}

/// The files as they are listed, or an unknown failure where one of them
/// has no identifier or no name.
pub fn list_all(files: Vec<DriveFile>) -> (r: Result<Vec<FileInfo>, Error>)
    ensures
        listing_outcome_view(r) == listed_files(Ok(drive_files_view(files))),
{
    let mut listed: Vec<FileInfo> = Vec::new();
    let mut at: usize = 0;
    while at < files.len()
        invariant
            at <= files.len(),
            listed.len() == at,
            forall|i: int| 0 <= i < at ==> (#[trigger] files[i])@.complete(),
            forall|i: int| 0 <= i < at ==> (#[trigger] listed[i])@ == files[i]@.listed(),
        decreases files.len() - at,
    {
        match file_info_of(&files[at]) {
            Some(info) => {
                listed.push(info);
            },
            None => {
                proof {
                    assert(drive_files_view(files)[at as int] == files[at as int]@);
                    assert(!all_complete(drive_files_view(files)));
                }
                return Err(Error::Unknown("File without id or name".to_string()));
            },
        }
        at += 1;
    }
    proof {
        assert forall|i: int| 0 <= i < files.len() implies (#[trigger] drive_files_view(
            files,
        )[i]).complete() by {
            assert(files[i]@.complete());
        }
        assert(listing_view(listed) =~= drive_files_view(files).map_values(
            |file: DriveFileView| file.listed(),
        ));
    }
    Ok(listed)
}

/// The file as it is listed to the client, or nothing where it has no
/// identifier or no name.
pub fn file_info_of(file: &DriveFile) -> (info: Option<FileInfo>)
    ensures
        info is Some <==> file@.complete(),
        info is Some ==> info->0@ == file@.listed(),
{
    let id = match &file.id {
        Some(id) => id.clone(),
        None => {
            return None;
        },
    };
    let name = match &file.name {
        Some(name) => name.clone(),
        None => {
            return None;
        },
    };
    let file_type = match &file.mime_type {
        Some(mime_type) => mime_type.clone(),
        None => String::new(),
    };
    Some(FileInfo { id, name, file_type, created_at: file.created_time })
}

/// Tells a token turned down from every other failure of a listing.
pub fn classify(failure: ListFailure) -> (error: Error)
    ensures
        error@ == failure@.classified(),
{
    match failure {
        ListFailure::BadRequest(answer) => {
            if contains_text(answer.as_str(), "UNAUTHENTICATED") {
                Error::GoogleUnauthenticated
            } else {
                Error::Unknown(answer)
            }
        },
        ListFailure::Other(detail) => Error::Unknown(detail),
    }
}

/// Whether `text` is a URL.
pub fn is_url(text: &str) -> (ok: bool)
    ensures
        ok == url_parses(text@),
{
    url_is_valid(text)
}

/// Calls `url::Url::parse`, as `oauth2` does in `AuthUrl::new`,
/// `TokenUrl::new` and `RedirectUrl::new`. Not proved: that it succeeds
/// exactly on the texts named by `url_parses`.
#[verifier::external_body]
fn url_is_valid(text: &str) -> (ok: bool)
    ensures
        ok == url_parses(text@),
{
    oauth2::url::Url::parse(text).is_ok()
}

/// Calls `oauth2::CsrfToken::new_random` and takes the text out. Not proved:
/// that the text has 22 characters. `new_random` encodes 16 random bytes in
/// URL-safe base64 without padding. Which text comes back is left open.
#[verifier::external_body]
fn random_state() -> (state: String)
    ensures
        state@.len() == 22,
{
    oauth2::CsrfToken::new_random().secret().clone()
}

/// Builds an `oauth2::basic::BasicClient` without secret and token
/// endpoint, sets the redirect URL and calls `authorize_url`, `add_scope`
/// twice and `url`. Not proved: that this succeeds exactly where
/// `auth_url` and `redirect_url` are URLs (nothing else in it can fail),
/// that the URL is the one named `authorize_url_text`, and that it is not
/// empty: it is the endpoint's URL, which begins with its scheme, followed
/// by the query.
#[verifier::external_body]
fn authorization_url(
    auth_url: &str,
    client_id: &str,
    redirect_url: &str,
    first_scope: &str,
    second_scope: &str,
    state: &str,
) -> (built: Option<String>)
    ensures
        built is Some <==> (url_parses(auth_url@) && url_parses(redirect_url@)),
        built is Some ==> built->Some_0@.len() > 0,
        built is Some ==> built->Some_0@ == authorize_url_text(
            auth_url@,
            client_id@,
            redirect_url@,
            first_scope@,
            second_scope@,
            state@,
        ),
{
    let client = oauth2::basic::BasicClient::new(
        oauth2::ClientId::new(client_id.to_string()),
        None,
        oauth2::AuthUrl::new(auth_url.to_string()).ok()?,
        None,
    ).set_redirect_uri(oauth2::RedirectUrl::new(redirect_url.to_string()).ok()?);
    let token = oauth2::CsrfToken::new(state.to_string());
    let request = client.authorize_url(move || token)
        .add_scope(oauth2::Scope::new(first_scope.to_string()))
        .add_scope(oauth2::Scope::new(second_scope.to_string()));
    Some(request.url().0.to_string())
}

} // verus!
