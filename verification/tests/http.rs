use rust_api::adapters::config::Config;
use rust_api::adapters::driving::http::handlers::{
    callback_payload, download_step, field_is_pdf, handler_download_pdf,
    handler_get_google_auth_url, handler_get_list_files, handler_handle_google_callback,
    handler_upload_pdf, list_files_payload, upload_step, DownloadAction, DownloadEvent,
    DownloadPDFQuery, DownloadState, FieldHead, GoogleCallbackQuery, ListFilesQuery, UploadAction,
    UploadEvent, UploadState,
};
use rust_api::adapters::driving::http::middlewares::authentication::{
    auth_middleware, auth_middleware_at, auth_middleware_under, from_token, is_protected, Header,
    Verdict,
};
use rust_api::application::usecases::{download_pdf, get_google_auth_url, list_files, upload_pdf};
use rust_api::domain::entities::token_data::TokenData;
use rust_api::domain::value_objects::file_info::FileInfo;
use rust_api::domain::value_objects::id::Id;
use rust_api::domain::value_objects::timestamp::Timestamp;

fn config() -> Config {
    Config {
        secret: b"c2VjcmV0LWtleS1mb3ItdGVzdHM=".to_vec(),
        db_url: "mongodb://localhost:27017".to_string(),
        db_name: "db".to_string(),
        google_client_id: "CID".to_string(),
        google_client_secret: "CSECRET".to_string(),
        google_auth_url: "https://accounts.google.com/o/oauth2/v2/auth".to_string(),
        google_token_url: "https://oauth2.googleapis.com/token".to_string(),
        google_redirect_url: "http://localhost:8080/callback".to_string(),
    }
}

fn credential(user: u128, issued: i64) -> String {
    let id = Id::try_from(user).unwrap();
    TokenData::issued_at(&id, Timestamp::from_secs(issued)).token(&config().secret)
}

#[test]
fn open_paths_bypass_the_guard() {
    let now = Timestamp::from_secs(1_700_000_000);
    for path in ["/", "/api/public/callback", "/api/protected", "/api/protectedx/y", ""] {
        assert!(!is_protected(path));
        assert_eq!(auth_middleware_at(&config(), path, Header::Missing, now), Verdict::Bypass);
        assert_eq!(
            auth_middleware_at(&config(), path, Header::Value("junk".to_string()), now),
            Verdict::Bypass
        );
        assert_eq!(auth_middleware(&config(), path, Header::Unreadable), Verdict::Bypass);
    }
}

#[test]
fn protected_paths_need_a_good_credential() {
    let now = Timestamp::from_secs(1_700_000_100);
    let path = "/api/protected/list-files";
    assert!(is_protected(path));
    assert_eq!(auth_middleware_at(&config(), path, Header::Missing, now), Verdict::Unauthorized);
    assert_eq!(auth_middleware_at(&config(), path, Header::Unreadable, now), Verdict::Unauthorized);
    assert_eq!(
        auth_middleware_at(&config(), path, Header::Value("Bearer junk".to_string()), now),
        Verdict::Unauthorized
    );
    let token = credential(42, 1_700_000_000);
    assert_eq!(
        auth_middleware_at(&config(), path, Header::Value(token.clone()), now),
        Verdict::Authorized { user_id: 42 }
    );
    assert_eq!(
        auth_middleware_at(&config(), path, Header::Value(format!("Bearer {}", token)), now),
        Verdict::Authorized { user_id: 42 }
    );
    let expired = Timestamp::from_secs(1_700_086_400);
    assert_eq!(
        auth_middleware_at(&config(), path, Header::Value(token), expired),
        Verdict::Unauthorized
    );
    assert_eq!(auth_middleware(&config(), path, Header::Missing), Verdict::Unauthorized);
}

#[test]
fn the_guard_reads_the_clock_for_fresh_credentials() {
    let id = Id::try_from(42u128).unwrap();
    let token = TokenData::new(&id).token(&config().secret);
    assert_eq!(
        auth_middleware(&config(), "/api/protected/x", Header::Value(token)),
        Verdict::Authorized { user_id: 42 }
    );
    let old = credential(42, 1_000);
    assert_eq!(
        auth_middleware(&config(), "/api/protected/x", Header::Value(old)),
        Verdict::Unauthorized
    );
}

#[test]
fn the_protected_prefix_can_be_chosen() {
    let now = Timestamp::from_secs(1_700_000_100);
    let token = credential(42, 1_700_000_000);
    assert_eq!(
        auth_middleware_under(&config(), "/private/", "/api/protected/x", Header::Missing, now),
        Verdict::Bypass
    );
    assert_eq!(
        auth_middleware_under(&config(), "/private/", "/private/x", Header::Missing, now),
        Verdict::Unauthorized
    );
    assert_eq!(
        auth_middleware_under(&config(), "/private/", "/private/x", Header::Value(token), now),
        Verdict::Authorized { user_id: 42 }
    );
    assert_eq!(
        auth_middleware_under(&config(), "", "/anything", Header::Missing, now),
        Verdict::Unauthorized
    );
}

#[test]
fn header_text_is_the_credential() {
    assert_eq!(from_token(Header::Value("Bearer x".to_string())), Some("Bearer x".to_string()));
    assert_eq!(from_token(Header::Missing), None);
    assert_eq!(from_token(Header::Unreadable), None);
}

#[test]
fn auth_url_is_answered_with_a_permanent_redirect() {
    let redirect = handler_get_google_auth_url(Ok("https://x/y".to_string())).ok().unwrap();
    assert_eq!(redirect.status, 308);
    assert_eq!(redirect.location, "https://x/y");
    let failed = handler_get_google_auth_url(Err(get_google_auth_url::Error::ConnectionError(
        "secret detail".to_string(),
    )));
    let response = failed.err().unwrap();
    assert_eq!(response.status, 500);
    let error = response.error.unwrap();
    assert_eq!(error.message, "Internal Server Error");
    assert_eq!(error.details, "Internal Server Error");
}

#[test]
fn callback_is_answered_with_the_credential_or_an_opaque_failure() {
    let query = GoogleCallbackQuery {
        state: "S".to_string(),
        code: "C1".to_string(),
        scope: "email".to_string(),
        authuser: "0".to_string(),
        prompt: "consent".to_string(),
    };
    assert_eq!(callback_payload(query).code, "C1");
    let ok = handler_handle_google_callback(Ok("session".to_string()));
    assert_eq!(ok.status, 200);
    assert_eq!(ok.data, Some("session".to_string()));
    assert!(ok.error.is_none());
    let failed = handler_handle_google_callback(Err("Unknown error: T1 was refused".to_string()));
    assert_eq!(failed.status, 500);
    assert!(failed.data.is_none());
    let error = failed.error.unwrap();
    assert_eq!(error.message, "Internal Server Error");
    assert_eq!(error.details, "Internal Server Error");
}

#[test]
fn listing_is_answered_with_files_or_the_failure_in_words() {
    let payload = list_files_payload(8, ListFilesQuery { folder_id: "F1".to_string() }).ok().unwrap();
    assert_eq!(payload.path, "F1");
    assert_eq!(payload.user_id.bits(), 8);
    let refused = list_files_payload(0, ListFilesQuery { folder_id: "F1".to_string() });
    assert_eq!(refused.err().unwrap().status, 500);
    let file = FileInfo {
        id: "1".to_string(),
        name: "a.pdf".to_string(),
        file_type: "application/pdf".to_string(),
        created_at: None,
    };
    let ok = handler_get_list_files(Ok(vec![file]));
    assert_eq!(ok.status, 200);
    assert_eq!(ok.data.unwrap()[0].id, "1");
    let failed = handler_get_list_files(Err(list_files::Error::GoogleUnauthenticated));
    assert_eq!(failed.status, 500);
    let error = failed.error.unwrap();
    assert_eq!(error.message, "Internal Server Error");
    assert_eq!(error.details, "Connection error: Google access token expired");
    let failed =
        handler_get_list_files(Err(list_files::Error::ConnectionError("quota".to_string())));
    assert_eq!(failed.status, 500);
    assert_eq!(failed.error.unwrap().details, "Connection error: quota");
}

#[test]
fn download_is_answered_with_the_file_or_status_500() {
    let (state, action) = handler_download_pdf(8, DownloadPDFQuery { file_id: "D1".to_string() });
    assert!(
        matches!(action, DownloadAction::Download(ref payload) if payload.file_id == "D1" && payload.user_id.bits() == 8)
    );
    let (state, action) = download_step(state, DownloadEvent::Downloaded(Ok("p.pdf".to_string())));
    assert!(matches!(action, DownloadAction::OpenFile { ref path } if path == "p.pdf"));
    let (state, action) = download_step(state, DownloadEvent::FileOpened(Ok(())));
    assert!(
        matches!(action, DownloadAction::SendFile { ref content_type, ref content_disposition } if content_type == "application/pdf" && content_disposition == "inline; filename=\"example.pdf\"")
    );
    assert!(matches!(state, DownloadState::Finished));
    let (_, action) = download_step(state, DownloadEvent::FileOpened(Ok(())));
    assert!(matches!(action, DownloadAction::Stop));

    let (_, action) = handler_download_pdf(0, DownloadPDFQuery { file_id: "D1".to_string() });
    assert!(
        matches!(action, DownloadAction::Respond(ref reply) if reply.status == 500 && reply.text == "Internal Server Error")
    );
    let (_, action) = download_step(
        DownloadState::Downloading,
        DownloadEvent::Downloaded(Err(download_pdf::Error::ConnectionError("x".to_string()))),
    );
    assert!(
        matches!(action, DownloadAction::Respond(ref reply) if reply.status == 500 && reply.text == "Connection error: x")
    );
    let (_, action) =
        download_step(DownloadState::OpeningFile, DownloadEvent::FileOpened(Err("gone".to_string())));
    assert!(
        matches!(action, DownloadAction::Respond(ref reply) if reply.status == 500 && reply.text == "Error opening PDF file: gone")
    );
    let (_, action) =
        download_step(DownloadState::Downloading, DownloadEvent::FileOpened(Ok(())));
    assert!(
        matches!(action, DownloadAction::Respond(ref reply) if reply.status == 500 && reply.text == "Unexpected event")
    );
}

fn pdf_field(name: Option<&str>) -> FieldHead {
    FieldHead {
        content_type: Some("application/pdf".to_string()),
        file_name: name.map(|name| name.to_string()),
    }
}

fn reply_of(action: UploadAction) -> (u16, String) {
    match action {
        UploadAction::Respond(reply) => (reply.status, reply.text),
        _ => panic!("the upload is answered"),
    }
}

#[test]
fn upload_stores_the_field_and_sends_it_on() {
    let (state, action) = handler_upload_pdf(8);
    assert!(matches!(action, UploadAction::ReadField));
    let (state, action) = upload_step(state, UploadEvent::FieldRead(Ok(Some(pdf_field(Some("a.pdf"))))));
    assert!(matches!(action, UploadAction::CreateFile { ref path } if path == "a.pdf"));
    let (state, action) = upload_step(state, UploadEvent::FileCreated(Ok(())));
    assert!(matches!(action, UploadAction::ReadChunk));
    let (state, action) = upload_step(state, UploadEvent::ChunkRead(Ok(Some(vec![1, 2]))));
    assert!(matches!(action, UploadAction::WriteChunk { ref bytes } if bytes == &vec![1u8, 2]));
    let (state, action) = upload_step(state, UploadEvent::ChunkWritten(Ok(())));
    assert!(matches!(action, UploadAction::ReadChunk));
    let (state, action) = upload_step(state, UploadEvent::ChunkRead(Ok(None)));
    assert!(
        matches!(action, UploadAction::Upload(ref payload) if payload.file_name == "a.pdf" && payload.file_path == "a.pdf" && payload.user_id.bits() == 8)
    );
    let (state, action) = upload_step(state, UploadEvent::Uploaded(Ok("{\"id\":\"9\"}".to_string())));
    assert_eq!(reply_of(action), (200, "{\"id\":\"9\"}".to_string()));
    assert!(matches!(state, UploadState::Finished));
    let (_, action) = upload_step(state, UploadEvent::ChunkRead(Ok(None)));
    assert!(matches!(action, UploadAction::Stop));
}

#[test]
fn upload_refuses_what_is_no_named_pdf() {
    let (_, action) = handler_upload_pdf(0);
    assert_eq!(reply_of(action), (500, "Internal Server Error".to_string()));
    let start = || handler_upload_pdf(8).0;
    let (_, action) = upload_step(start(), UploadEvent::FieldRead(Ok(None)));
    assert_eq!(reply_of(action), (400, "No file uploaded".to_string()));
    let (_, action) = upload_step(start(), UploadEvent::FieldRead(Err("E".to_string())));
    assert_eq!(reply_of(action), (500, "Error processing file: E".to_string()));
    let text = FieldHead {
        content_type: Some("text/plain".to_string()),
        file_name: Some("a.txt".to_string()),
    };
    assert!(!field_is_pdf(&text));
    let (state, action) = upload_step(start(), UploadEvent::FieldRead(Ok(Some(text))));
    assert_eq!(reply_of(action), (400, "Only PDF files are allowed!".to_string()));
    let (_, action) = upload_step(state, UploadEvent::FileCreated(Ok(())));
    assert!(matches!(action, UploadAction::Stop));
    let untyped = FieldHead { content_type: None, file_name: None };
    let (_, action) = upload_step(start(), UploadEvent::FieldRead(Ok(Some(untyped))));
    assert_eq!(reply_of(action), (400, "Only PDF files are allowed!".to_string()));
    let (_, action) = upload_step(start(), UploadEvent::FieldRead(Ok(Some(pdf_field(None)))));
    assert_eq!(reply_of(action), (400, "File name not provided!".to_string()));
}

#[test]
fn each_upload_step_failure_is_answered_with_status_500() {
    let stored = || {
        let (state, _) = upload_step(
            handler_upload_pdf(8).0,
            UploadEvent::FieldRead(Ok(Some(pdf_field(Some("a.pdf"))))),
        );
        state
    };
    let (_, action) = upload_step(stored(), UploadEvent::FileCreated(Err("E".to_string())));
    assert_eq!(reply_of(action), (500, "Failed to create file: E".to_string()));
    let (reading, _) = upload_step(stored(), UploadEvent::FileCreated(Ok(())));
    let (_, action) = upload_step(reading, UploadEvent::ChunkRead(Err("E".to_string())));
    assert_eq!(reply_of(action), (500, "Error while reading file: E".to_string()));
    let (reading, _) = upload_step(stored(), UploadEvent::FileCreated(Ok(())));
    let (writing, _) = upload_step(reading, UploadEvent::ChunkRead(Ok(Some(vec![1]))));
    let (_, action) = upload_step(writing, UploadEvent::ChunkWritten(Err("E".to_string())));
    assert_eq!(reply_of(action), (500, "Error while writing file: E".to_string()));
    let (_, action) = upload_step(
        UploadState::Uploading,
        UploadEvent::Uploaded(Err(upload_pdf::Error::ConnectionError("x".to_string()))),
    );
    assert_eq!(reply_of(action), (500, "Connection error: x".to_string()));
    let (_, action) = upload_step(UploadState::Uploading, UploadEvent::FileCreated(Ok(())));
    assert_eq!(reply_of(action), (500, "Unexpected event".to_string()));
}
