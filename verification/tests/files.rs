use rust_api::adapters::driven::google_drive_service::download;
use rust_api::adapters::driven::google_drive_service::upload;
use rust_api::adapters::driven::google_drive_service::{
    classify, file_info_of, is_url, DriveFile, GoogleDriveService, ListFailure,
};
use rust_api::application::ports::google_drive_service::Error;
use rust_api::application::ports::user_repository;
use rust_api::application::usecases::list_files::usecase;
use rust_api::application::usecases::{download_pdf, get_google_auth_url, list_files, upload_pdf};
use rust_api::domain::entities::user::User;
use rust_api::domain::value_objects::email::Email;
use rust_api::domain::value_objects::file_info::FileInfo;
use rust_api::domain::value_objects::id::Id;
use rust_api::domain::value_objects::timestamp::Timestamp;

fn service() -> GoogleDriveService {
    GoogleDriveService::try_new(
        "CID".to_string(),
        "CSECRET".to_string(),
        "https://accounts.google.com/o/oauth2/v2/auth".to_string(),
        "https://oauth2.googleapis.com/token".to_string(),
        "http://localhost:8080/callback".to_string(),
    )
    .unwrap()
}

fn user(token: &str) -> User {
    User::created(
        Id::try_from(8u128).unwrap(),
        Email::new("u@x.com".to_string()).unwrap(),
        token.to_string(),
        Timestamp { secs: 1, nanos: 0 },
    )
}

fn pdf() -> download::FileMetadata {
    download::FileMetadata {
        name: Some("a.pdf".to_string()),
        mime_type: Some("application/pdf".to_string()),
    }
}

#[test]
fn test_get_google_auth_url() {
    let google_drive_service = service();
    let (auth_url, csrf_token) = google_drive_service.get_google_auth_url().unwrap();
    assert!(!auth_url.is_empty());
    assert!(!csrf_token.is_empty());
    assert_eq!(csrf_token.len(), 22);
    assert_eq!(auth_url, google_drive_service.auth_url_with_state(&csrf_token));
    let (_, other) = google_drive_service.get_google_auth_url().unwrap();
    assert_ne!(other, csrf_token);
}

#[test]
fn authorization_url_names_client_state_redirect_and_scopes() {
    assert_eq!(
        service().auth_url_with_state("S-1"),
        "https://accounts.google.com/o/oauth2/v2/auth?response_type=code&client_id=CID&state=S-1\
         &redirect_uri=http%3A%2F%2Flocalhost%3A8080%2Fcallback\
         &scope=https%3A%2F%2Fwww.googleapis.com%2Fauth%2Fdrive\
         +https%3A%2F%2Fwww.googleapis.com%2Fauth%2Fuserinfo.email"
    );
}

#[test]
fn registration_needs_three_urls() {
    assert!(is_url("https://accounts.google.com/o/oauth2/v2/auth"));
    assert!(!is_url("accounts.google.com"));
    assert!(!is_url(""));
    let broken = GoogleDriveService::try_new(
        "CID".to_string(),
        "CSECRET".to_string(),
        "https://accounts.google.com/o/oauth2/v2/auth".to_string(),
        "not a url".to_string(),
        "http://localhost:8080/callback".to_string(),
    );
    assert!(broken.is_none());
    let service = service();
    assert_eq!(service.client_id(), "CID");
    assert_eq!(service.client_secret(), "CSECRET");
    assert_eq!(service.auth_url(), "https://accounts.google.com/o/oauth2/v2/auth");
    assert_eq!(service.token_url(), "https://oauth2.googleapis.com/token");
    assert_eq!(service.redirect_url(), "http://localhost:8080/callback");
    assert_eq!(service.email_endpoint(), "https://www.googleapis.com/oauth2/v3/userinfo");
}

#[test]
fn auth_url_use_case_hands_out_the_url_alone() {
    let url = get_google_auth_url::execute(&service()).ok().unwrap();
    assert!(url.starts_with("https://accounts.google.com/o/oauth2/v2/auth?response_type=code"));
    let url = get_google_auth_url::outcome(Ok(("U".to_string(), "S".to_string())));
    assert_eq!(url.ok().unwrap(), "U");
    let failed = get_google_auth_url::outcome(Err(Error::Unknown("x".to_string())));
    assert!(
        matches!(failed, Err(get_google_auth_url::Error::ConnectionError(ref why)) if why == "Unknown error: x")
    );
}

#[test]
fn provider_text_answers_are_forwarded() {
    let service = service();
    assert_eq!(service.handle_google_callback(Ok("T1".to_string())).unwrap(), "T1");
    assert!(
        matches!(service.handle_google_callback(Err("timeout".to_string())), Err(Error::Unknown(ref why)) if why == "timeout")
    );
    assert_eq!(service.get_google_email(Ok("u@x.com".to_string())).unwrap(), "u@x.com");
    assert!(
        matches!(service.get_google_email(Err("missing field `email`".to_string())), Err(Error::Unknown(ref why)) if why == "missing field `email`")
    );
    assert_eq!(Error::GoogleUnauthenticated.to_string(), "Google Unauthenticated");
    assert_eq!(Error::Unknown("x".to_string()).to_string(), "Unknown error: x");
}

#[test]
fn listing_asks_for_one_page_of_children() {
    let query = service().list_files_query("F1");
    assert_eq!(query.q, "'F1' in parents");
    assert_eq!(query.page_size, 100);
    assert_eq!(query.scope, "https://www.googleapis.com/auth/drive.metadata.readonly");
    assert_eq!(query.fields, "files(id, name, mimeType, createdTime)");
}

#[test]
fn unauthenticated_listing_is_told_apart_from_other_failures() {
    let body = "{\"error\":{\"code\":401,\"status\":\"UNAUTHENTICATED\"}}";
    assert!(matches!(
        classify(ListFailure::BadRequest(body.to_string())),
        Error::GoogleUnauthenticated
    ));
    assert!(matches!(
        service().list_files(Err(ListFailure::BadRequest(body.to_string()))),
        Err(Error::GoogleUnauthenticated)
    ));
    let other = "{\"error\":{\"code\":404,\"status\":\"NOT_FOUND\"}}";
    assert!(
        matches!(service().list_files(Err(ListFailure::BadRequest(other.to_string()))), Err(Error::Unknown(ref why)) if why == other)
    );
    assert!(
        matches!(service().list_files(Err(ListFailure::Other("UNAUTHENTICATED".to_string()))), Err(Error::Unknown(ref why)) if why == "UNAUTHENTICATED")
    );
}

#[test]
fn listed_files_keep_order_and_default_the_content_type() {
    let created = Timestamp { secs: 1_700_000_000, nanos: 500 };
    let files = vec![
        DriveFile {
            id: Some("1".to_string()),
            name: Some("a.pdf".to_string()),
            mime_type: Some("application/pdf".to_string()),
            created_time: Some(created),
        },
        DriveFile {
            id: Some("2".to_string()),
            name: Some("b".to_string()),
            mime_type: None,
            created_time: None,
        },
    ];
    let first = file_info_of(&files[0]).unwrap();
    assert_eq!(first.id, "1");
    let nameless = DriveFile { id: Some("3".to_string()), name: None, mime_type: None, created_time: None };
    assert!(file_info_of(&nameless).is_none());
    let listed = service().list_files(Ok(files)).unwrap();
    assert_eq!(listed.len(), 2);
    assert_eq!(listed[0].id, "1");
    assert_eq!(listed[0].name, "a.pdf");
    assert_eq!(listed[0].file_type, "application/pdf");
    assert_eq!(listed[0].created_at, Some(created));
    assert_eq!(listed[1].id, "2");
    assert_eq!(listed[1].name, "b");
    assert_eq!(listed[1].file_type, "");
    assert_eq!(listed[1].created_at, None);
    assert!(service().list_files(Ok(Vec::new())).unwrap().is_empty());
}

#[test]
fn list_use_case_reports_an_expired_token_in_its_own_words() {
    let payload = list_files::Payload { path: "F1".to_string(), user_id: Id::try_from(8u128).unwrap() };
    let (state, action) = list_files::start(payload);
    assert!(matches!(action, list_files::Action::FindUserById { user_id } if user_id.bits() == 8));
    let (state, action) = list_files::execute(state, list_files::Event::UserFound(Ok(user("T1"))));
    assert!(
        matches!(action, list_files::Action::ListFiles { ref access_token, ref folder_id } if access_token == "T1" && folder_id == "F1")
    );
    let (state, action) = list_files::execute(
        state,
        list_files::Event::FilesListed(Err(Error::GoogleUnauthenticated)),
    );
    match action {
        list_files::Action::Return(Err(error)) => {
            assert!(matches!(error, list_files::Error::GoogleUnauthenticated));
            assert_eq!(error.to_string(), "Connection error: Google access token expired")
        }
        _ => panic!("the listing ended"),
    }
    let (_, action) = list_files::execute(state, list_files::Event::FilesListed(Ok(Vec::new())));
    assert!(matches!(action, list_files::Action::Stop));
}

#[test]
fn list_use_case_hands_out_files_and_forwards_failures() {
    let payload = || list_files::Payload { path: "F1".to_string(), user_id: Id::try_from(8u128).unwrap() };
    let (state, _) = list_files::start(payload());
    let (state, _) = list_files::execute(state, list_files::Event::UserFound(Ok(user("T1"))));
    let file = FileInfo {
        id: "1".to_string(),
        name: "a.pdf".to_string(),
        file_type: "application/pdf".to_string(),
        created_at: None,
    };
    let (_, action) = list_files::execute(state, list_files::Event::FilesListed(Ok(vec![file])));
    match action {
        list_files::Action::Return(Ok(files)) => {
            assert_eq!(files.len(), 1);
            assert_eq!(files[0].name, "a.pdf");
        }
        _ => panic!("the listing ended"),
    }
    let (state, _) = list_files::start(payload());
    let (_, action) = list_files::execute(
        state,
        list_files::Event::UserFound(Err(user_repository::Error::NotFound)),
    );
    assert!(
        matches!(action, list_files::Action::Return(Err(list_files::Error::ConnectionError(ref why))) if why == "Not Found")
    );
    let (state, _) = list_files::start(payload());
    let (state, _) = list_files::execute(state, list_files::Event::UserFound(Ok(user("T1"))));
    let (_, action) = list_files::execute(
        state,
        list_files::Event::FilesListed(Err(Error::Unknown("quota".to_string()))),
    );
    assert!(
        matches!(action, list_files::Action::Return(Err(list_files::Error::ConnectionError(ref why))) if why == "Unknown error: quota")
    );
}

#[test]
fn document_of_another_type_is_refused_before_anything_is_fetched() {
    let (state, action) = download::start("T1".to_string(), "D1");
    assert!(
        matches!(action, download::Action::FetchMetadata { ref access_token, ref file_id, ref fields } if access_token == "T1" && file_id == "D1" && fields == "name,mimeType")
    );
    let text = download::FileMetadata {
        name: Some("a.txt".to_string()),
        mime_type: Some("text/plain".to_string()),
    };
    let (state, action) = download::step(state, download::Event::MetadataFetched(Ok(text)));
    assert!(
        matches!(action, download::Action::Return(Err(Error::Unknown(ref why))) if why == "not a pdf")
    );
    let (state, action) = download::step(state, download::Event::FileCreated(Ok(())));
    assert!(matches!(action, download::Action::Stop));
    let (_, action) = download::step(state, download::Event::ChunkRead(Ok(Some(vec![1]))));
    assert!(matches!(action, download::Action::Stop));
    let untyped = download::FileMetadata { name: None, mime_type: None };
    assert!(!download::is_pdf(&untyped));
    assert!(download::is_pdf(&pdf()));
    let (state, _) = download::start("T1".to_string(), "D1");
    let (_, action) = download::step(state, download::Event::MetadataFetched(Ok(untyped)));
    assert!(
        matches!(action, download::Action::Return(Err(Error::Unknown(ref why))) if why == "not a pdf")
    );
}

#[test]
fn document_is_fetched_chunk_by_chunk_into_its_local_file() {
    let (state, _) = download::start("T1".to_string(), "D1");
    let (state, action) = download::step(state, download::Event::MetadataFetched(Ok(pdf())));
    assert!(
        matches!(action, download::Action::CreateFile { ref path } if path == "downloaded_file_D1.pdf")
    );
    let (state, action) = download::step(state, download::Event::FileCreated(Ok(())));
    match action {
        download::Action::SendRequest { request } => {
            assert_eq!(request.url, "https://www.googleapis.com/drive/v3/files/D1");
            assert_eq!(request.access_token, "T1");
            assert_eq!(request.query, ("alt".to_string(), "media".to_string()));
        }
        _ => panic!("the content is requested"),
    }
    let (state, action) = download::step(state, download::Event::RequestSent(Ok(())));
    assert!(matches!(action, download::Action::ReadChunk));
    let mut state = state;
    let mut written: Vec<u8> = Vec::new();
    for chunk in [vec![1u8, 2], vec![], vec![3]] {
        let (next, action) = download::step(state, download::Event::ChunkRead(Ok(Some(chunk))));
        match action {
            download::Action::WriteChunk { bytes } => written.extend(bytes),
            _ => panic!("a chunk is written"),
        }
        let (next, action) = download::step(next, download::Event::ChunkWritten(Ok(())));
        assert!(matches!(action, download::Action::ReadChunk));
        state = next;
    }
    assert_eq!(written, vec![1, 2, 3]);
    let (state, action) = download::step(state, download::Event::ChunkRead(Ok(None)));
    assert!(
        matches!(action, download::Action::Return(Ok(ref path)) if path == "downloaded_file_D1.pdf")
    );
    assert!(matches!(state, download::State::Finished));
}

fn download_failure(events: Vec<download::Event>) -> String {
    let (mut state, _) = download::start("T1".to_string(), "D1");
    let mut last = None;
    for event in events {
        let (next, action) = download::step(state, event);
        state = next;
        last = Some(action);
    }
    match last {
        Some(download::Action::Return(Err(error))) => error.to_string(),
        _ => panic!("the transfer failed"),
    }
}

#[test]
fn each_download_failure_says_where_it_happened() {
    let fail = || Err("E".to_string());
    assert_eq!(
        download_failure(vec![download::Event::MetadataFetched(Err("E".to_string()))]),
        "Unknown error: E"
    );
    assert_eq!(
        download_failure(vec![
            download::Event::MetadataFetched(Ok(pdf())),
            download::Event::FileCreated(fail())
        ]),
        "Unknown error: Error creating file: E"
    );
    assert_eq!(
        download_failure(vec![
            download::Event::MetadataFetched(Ok(pdf())),
            download::Event::FileCreated(Ok(())),
            download::Event::RequestSent(fail())
        ]),
        "Unknown error: Error sending request: E"
    );
    assert_eq!(
        download_failure(vec![
            download::Event::MetadataFetched(Ok(pdf())),
            download::Event::FileCreated(Ok(())),
            download::Event::RequestSent(Ok(())),
            download::Event::ChunkRead(Err("E".to_string()))
        ]),
        "Unknown error: Error reading chunk: E"
    );
    assert_eq!(
        download_failure(vec![
            download::Event::MetadataFetched(Ok(pdf())),
            download::Event::FileCreated(Ok(())),
            download::Event::RequestSent(Ok(())),
            download::Event::ChunkRead(Ok(Some(vec![9]))),
            download::Event::ChunkWritten(fail())
        ]),
        "Unknown error: Error writing to file: E"
    );
    assert_eq!(
        download_failure(vec![download::Event::ChunkWritten(Ok(()))]),
        "Unknown error: Unexpected event"
    );
}

#[test]
fn upload_body_frames_metadata_and_content() {
    let body = upload::multipart_body("{\"name\":\"a.pdf\"}", &[0x25, 0x50, 0x44, 0x46, 0xff]);
    let mut expected: Vec<u8> = Vec::new();
    expected.extend(b"--foo_bar_baz\r\n");
    expected.extend(b"Content-Type: application/json; charset=UTF-8\r\n\r\n");
    expected.extend(b"{\"name\":\"a.pdf\"}");
    expected.extend(b"\r\n");
    expected.extend(b"--foo_bar_baz\r\n");
    expected.extend(b"Content-Type: application/pdf\r\n\r\n");
    expected.extend([0x25, 0x50, 0x44, 0x46, 0xff]);
    expected.extend(b"\r\n");
    expected.extend(b"--foo_bar_baz--\r\n");
    assert_eq!(body, expected);
    assert_eq!(upload::multipart_body("", &[]).len(), 15 + 49 + 2 + 15 + 33 + 2 + 17);
}

#[test]
fn upload_metadata_names_the_document_and_its_type() {
    let metadata = upload::metadata_for("a \"b\".pdf");
    let parsed: serde_json::Value = serde_json::from_str(&metadata).unwrap();
    assert_eq!(parsed["name"], "a \"b\".pdf");
    assert_eq!(parsed["mimeType"], "application/pdf");
    assert_eq!(parsed.as_object().unwrap().len(), 2);
    assert_eq!(
        upload::metadata_for("a.pdf"),
        "{\"name\":\"a.pdf\",\"mimeType\":\"application/pdf\"}"
    );
}

#[test]
fn upload_request_announces_the_exact_length() {
    let request = upload::request_for("T1".to_string(), "a.pdf", &[1, 2, 3]);
    assert_eq!(
        request.url,
        "https://www.googleapis.com/upload/drive/v3/files?uploadType=multipart"
    );
    assert_eq!(request.access_token, "T1");
    assert_eq!(request.content_type, "multipart/related; boundary=foo_bar_baz");
    assert_eq!(request.content_length, request.body.len());
    assert_eq!(
        request.body,
        upload::multipart_body(&upload::metadata_for("a.pdf"), &[1, 2, 3])
    );
}

#[test]
fn upload_reads_the_file_posts_it_and_hands_out_the_answer() {
    let (state, action) = upload::start("T1".to_string(), "a.pdf", "/tmp/a.pdf".to_string());
    assert!(matches!(action, upload::Action::OpenFile { ref path } if path == "/tmp/a.pdf"));
    let (state, action) = upload::step(state, upload::Event::FileOpened(Ok(())));
    assert!(matches!(action, upload::Action::ReadFile));
    let (state, action) = upload::step(state, upload::Event::FileRead(Ok(vec![7, 8])));
    match action {
        upload::Action::SendRequest { request } => {
            assert_eq!(request.content_length, request.body.len());
            assert_eq!(
                request.body,
                upload::request_for("T1".to_string(), "a.pdf", &[7, 8]).body
            );
        }
        _ => panic!("the body is posted"),
    }
    let (state, action) = upload::step(state, upload::Event::RequestSent(Ok(())));
    assert!(matches!(action, upload::Action::ReadResponse));
    let (state, action) =
        upload::step(state, upload::Event::ResponseRead(Ok("{\"id\":\"9\"}".to_string())));
    assert!(matches!(action, upload::Action::Return(Ok(ref answer)) if answer == "{\"id\":\"9\"}"));
    let (_, action) = upload::step(state, upload::Event::RequestSent(Ok(())));
    assert!(matches!(action, upload::Action::Stop));
}

fn upload_failure(events: Vec<upload::Event>) -> String {
    let (mut state, _) = upload::start("T1".to_string(), "a.pdf", "/tmp/a.pdf".to_string());
    let mut last = None;
    for event in events {
        let (next, action) = upload::step(state, event);
        state = next;
        last = Some(action);
    }
    match last {
        Some(upload::Action::Return(Err(error))) => error.to_string(),
        _ => panic!("the upload failed"),
    }
}

#[test]
fn each_upload_failure_says_where_it_happened() {
    assert_eq!(
        upload_failure(vec![upload::Event::FileOpened(Err("E".to_string()))]),
        "Unknown error: Error opening file: E"
    );
    assert_eq!(
        upload_failure(vec![
            upload::Event::FileOpened(Ok(())),
            upload::Event::FileRead(Err("E".to_string()))
        ]),
        "Unknown error: Error reading file: E"
    );
    assert_eq!(
        upload_failure(vec![
            upload::Event::FileOpened(Ok(())),
            upload::Event::FileRead(Ok(vec![])),
            upload::Event::RequestSent(Err("E".to_string()))
        ]),
        "Unknown error: Error sending request: E"
    );
    assert_eq!(
        upload_failure(vec![
            upload::Event::FileOpened(Ok(())),
            upload::Event::FileRead(Ok(vec![])),
            upload::Event::RequestSent(Ok(())),
            upload::Event::ResponseRead(Err("E".to_string()))
        ]),
        "Unknown error: Error reading response: E"
    );
    assert_eq!(
        upload_failure(vec![upload::Event::ResponseRead(Ok("x".to_string()))]),
        "Unknown error: Unexpected event"
    );
}

#[test]
fn download_use_case_passes_the_stored_token_and_the_path() {
    let payload = download_pdf::Payload { file_id: "D1".to_string(), user_id: Id::try_from(8u128).unwrap() };
    let (state, action) = download_pdf::start(payload);
    assert!(matches!(action, download_pdf::Action::FindUserById { user_id } if user_id.bits() == 8));
    let (state, action) = download_pdf::execute(state, download_pdf::Event::UserFound(Ok(user("T1"))));
    assert!(
        matches!(action, download_pdf::Action::DownloadPdf { ref access_token, ref file_id } if access_token == "T1" && file_id == "D1")
    );
    let (state, action) =
        download_pdf::execute(state, download_pdf::Event::Downloaded(Ok("p.pdf".to_string())));
    assert!(matches!(action, download_pdf::Action::Return(Ok(ref path)) if path == "p.pdf"));
    let (_, action) =
        download_pdf::execute(state, download_pdf::Event::Downloaded(Ok("p.pdf".to_string())));
    assert!(matches!(action, download_pdf::Action::Stop));
}

#[test]
fn download_use_case_forwards_failures_as_connection_errors() {
    let payload = || download_pdf::Payload { file_id: "D1".to_string(), user_id: Id::try_from(8u128).unwrap() };
    let (state, _) = download_pdf::start(payload());
    let (_, action) = download_pdf::execute(
        state,
        download_pdf::Event::UserFound(Err(user_repository::Error::NotFound)),
    );
    match action {
        download_pdf::Action::Return(Err(error)) => {
            assert!(matches!(error, download_pdf::Error::ConnectionError(_)));
            assert_eq!(error.to_string(), "Connection error: Not Found");
        }
        _ => panic!("the download ended"),
    }
    let (state, _) = download_pdf::start(payload());
    let (state, _) = download_pdf::execute(state, download_pdf::Event::UserFound(Ok(user("T1"))));
    let (_, action) = download_pdf::execute(
        state,
        download_pdf::Event::Downloaded(Err(Error::Unknown("not a pdf".to_string()))),
    );
    match action {
        download_pdf::Action::Return(Err(error)) => {
            assert_eq!(error.to_string(), "Connection error: Unknown error: not a pdf")
        }
        _ => panic!("the download ended"),
    }
    assert_eq!(download_pdf::Error::NotFound("x".to_string()).to_string(), "Not found: x");
    let (state, _) = download_pdf::start(payload());
    let (_, action) =
        download_pdf::execute(state, download_pdf::Event::Downloaded(Ok("p".to_string())));
    assert!(
        matches!(action, download_pdf::Action::Return(Err(download_pdf::Error::ConnectionError(ref why))) if why == "Unexpected event")
    );
}

#[test]
fn upload_use_case_passes_the_stored_token_name_and_path() {
    let payload = || upload_pdf::Payload {
        file_name: "a.pdf".to_string(),
        user_id: Id::try_from(8u128).unwrap(),
        file_path: "/tmp/a.pdf".to_string(),
    };
    let (state, action) = upload_pdf::start(payload());
    assert!(matches!(action, upload_pdf::Action::FindUserById { user_id } if user_id.bits() == 8));
    let (state, action) = upload_pdf::execute(state, upload_pdf::Event::UserFound(Ok(user("T1"))));
    assert!(
        matches!(action, upload_pdf::Action::CreatePdf { ref access_token, ref file_name, ref file_path } if access_token == "T1" && file_name == "a.pdf" && file_path == "/tmp/a.pdf")
    );
    let (_, action) = upload_pdf::execute(state, upload_pdf::Event::Uploaded(Ok("done".to_string())));
    assert!(matches!(action, upload_pdf::Action::Return(Ok(ref answer)) if answer == "done"));
    let (state, _) = upload_pdf::start(payload());
    let (state, _) = upload_pdf::execute(state, upload_pdf::Event::UserFound(Ok(user("T1"))));
    let (_, action) =
        upload_pdf::execute(state, upload_pdf::Event::Uploaded(Err(Error::GoogleUnauthenticated)));
    match action {
        upload_pdf::Action::Return(Err(error)) => {
            assert_eq!(error.to_string(), "Connection error: Google Unauthenticated")
        }
        _ => panic!("the upload ended"),
    }
    assert_eq!(upload_pdf::Error::NotFound("x".to_string()).to_string(), "Not found: x");
}

#[test]
fn listing_by_user_identifier_asks_for_a_known_user_only() {
    let payload = || usecase::Payload { path: "/docs".to_string(), user_id: Id::try_from(8u128).unwrap() };
    let (state, action) = usecase::start(payload());
    assert!(matches!(action, usecase::Action::FindUserById { user_id } if user_id.bits() == 8));
    let (state, action) = usecase::execute(state, usecase::Event::UserFound(Ok(user("T1"))));
    assert!(
        matches!(action, usecase::Action::GetFiles { user_id, ref path } if user_id.bits() == 8 && path == "/docs")
    );
    let (state, action) =
        usecase::execute(state, usecase::Event::FilesListed(Ok(vec!["1".to_string(), "2".to_string()])));
    assert!(matches!(action, usecase::Action::Return(Ok(ref names)) if names == &vec!["1", "2"]));
    let (_, action) = usecase::execute(state, usecase::Event::FilesListed(Ok(Vec::new())));
    assert!(matches!(action, usecase::Action::Stop));
    let (state, _) = usecase::start(payload());
    let (_, action) =
        usecase::execute(state, usecase::Event::UserFound(Err(user_repository::Error::NotFound)));
    assert!(
        matches!(action, usecase::Action::Return(Err(usecase::Error::ConnectionError(ref why))) if why == "Not Found")
    );
    let (state, _) = usecase::start(payload());
    let (state, _) = usecase::execute(state, usecase::Event::UserFound(Ok(user("T1"))));
    let (_, action) =
        usecase::execute(state, usecase::Event::FilesListed(Err(Error::Unknown("x".to_string()))));
    assert!(
        matches!(action, usecase::Action::Return(Err(usecase::Error::ConnectionError(ref why))) if why == "Unknown error: x")
    );
}

fn drive_file(id: Option<&str>, name: Option<&str>) -> DriveFile {
    DriveFile {
        id: id.map(|id| id.to_string()),
        name: name.map(|name| name.to_string()),
        mime_type: None,
        created_time: None,
    }
}

#[test]
fn listing_with_an_incomplete_file_is_an_unknown_failure() {
    let replies = vec![
        vec![drive_file(None, None)],
        vec![drive_file(Some("1"), Some("a")), drive_file(None, Some("b"))],
        vec![drive_file(Some("1"), None), drive_file(Some("2"), Some("b"))],
    ];
    for files in replies {
        let outcome = service().list_files(Ok(files));
        assert!(
            matches!(outcome, Err(Error::Unknown(ref why)) if why == "File without id or name")
        );
    }
}
