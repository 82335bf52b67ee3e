use std::cell::RefCell;

use dbox::files;
use dbox::json::JsonValue;
use dbox::sharing;
use dbox::structs::Tag;
use dbox::users;
use dbox::{ApiError, DropboxClient, Endpoint, Headers, Response};

const METADATA_DOC: &str = "{\".tag\":\"file\",\"id\":\"id:abc\",\"name\":\"a.txt\",\
\"path_lower\":\"/a.txt\",\"size\":42}";
const FILE_METADATA_DOC: &str = "{\"id\":\"id:9\",\"name\":\"b.bin\",\"path_lower\":\"/b.bin\",\
\"rev\":\"1\",\"client_modified\":\"c\",\"server_modified\":\"s\",\"size\":1024}";
const FOLDER_LIST_DOC: &str = "{\"cursor\":\"cur\",\"has_more\":false,\"entries\":[\
{\".tag\":\"file\",\"id\":\"id:1\",\"name\":\"a\",\"path_lower\":\"/a\"}]}";
const NEW_FOLDER_DOC: &str = "{\"id\":\"id:5\",\"name\":\"New\",\"path_lower\":\"/new\"}";

struct Call {
    endpoint: Endpoint,
    url: String,
    headers: Vec<(String, String)>,
    body: Option<String>,
}

struct MockClient {
    response: Result<Response, ApiError>,
    calls: RefCell<Vec<Call>>,
}

impl MockClient {
    fn with_body(body: &str) -> MockClient {
        MockClient {
            response: Ok(Response {
                status: 200,
                api_result: None,
                body: body.to_string(),
            }),
            calls: RefCell::new(Vec::new()),
        }
    }

    fn with_response(response: Result<Response, ApiError>) -> MockClient {
        MockClient { response, calls: RefCell::new(Vec::new()) }
    }

    fn call(&self, i: usize) -> Call {
        let mut calls = self.calls.borrow_mut();
        assert!(i < calls.len(), "no call {} was made", i);
        calls.remove(i)
    }

    fn header(call: &Call, name: &str) -> Option<String> {
        call.headers
            .iter()
            .rev()
            .find(|(k, _)| k == name)
            .map(|(_, v)| v.clone())
    }
}

impl DropboxClient for MockClient {
    fn access_token(&self) -> &str {
        "mock"
    }

    fn request(
        &self,
        endpoint: Endpoint,
        url: &str,
        headers: &mut Headers,
        body: Option<&JsonValue>,
    ) -> Result<Response, ApiError> {
        self.calls.borrow_mut().push(Call {
            endpoint,
            url: url.to_string(),
            headers: headers.pairs().clone(),
            body: body.map(|v| v.render()),
        });
        self.response.clone()
    }
}

#[test]
fn copy_sends_both_paths_and_decodes() {
    let client = MockClient::with_body(METADATA_DOC);
    let m = files::copy_(&client, "/a", "/b").unwrap();
    assert_eq!(m.name, "a.txt");
    assert_eq!(m.size, Some(42));
    let call = client.call(0);
    assert_eq!(call.endpoint, Endpoint::Api);
    assert_eq!(call.url, "files/copy");
    assert_eq!(
        MockClient::header(&call, "Content-Type").as_deref(),
        Some("application/json")
    );
    assert_eq!(
        call.body.as_deref(),
        Some("{\"from_path\":\"/a\",\"to_path\":\"/b\"}")
    );
}

#[test]
fn copy_propagates_transport_error() {
    let client = MockClient::with_response(Err(ApiError::TokenError));
    assert_eq!(files::copy_(&client, "/a", "/b"), Err(ApiError::TokenError));
}

#[test]
fn copy_rejects_undecodable_body() {
    let client = MockClient::with_body("oops");
    assert_eq!(files::copy_(&client, "/a", "/b"), Err(ApiError::ClientError));
}

#[test]
fn create_folder_sends_path_and_decodes() {
    let client = MockClient::with_body(NEW_FOLDER_DOC);
    let nf = files::create_folder(&client, "/new").unwrap();
    assert_eq!(nf.name, "New");
    let call = client.call(0);
    assert_eq!(call.endpoint, Endpoint::Api);
    assert_eq!(call.url, "files/create_folder");
    assert_eq!(call.body.as_deref(), Some("{\"path\":\"/new\"}"));
}

#[test]
fn delete_sends_path_and_decodes() {
    let client = MockClient::with_body(METADATA_DOC);
    let m = files::delete(&client, "/a.txt").unwrap();
    assert_eq!(m.id, "id:abc");
    let call = client.call(0);
    assert_eq!(call.url, "files/delete");
    assert_eq!(call.body.as_deref(), Some("{\"path\":\"/a.txt\"}"));
}

#[test]
fn list_folder_sends_flags_and_decodes() {
    let client = MockClient::with_body(FOLDER_LIST_DOC);
    let fl = files::list_folder(&client, "/p").unwrap();
    assert_eq!(fl.cursor, "cur");
    assert_eq!(fl.entries.len(), 1);
    assert_eq!(fl.entries[0].tag, Tag::File);
    let call = client.call(0);
    assert_eq!(call.endpoint, Endpoint::Api);
    assert_eq!(call.url, "files/list_folder");
    assert_eq!(
        call.body.as_deref(),
        Some(
            "{\"include_deleted\":false,\"include_media_info\":false,\
\"path\":\"/p\",\"recursive\":false}"
        )
    );
}

#[test]
fn download_reads_api_result_header() {
    let client = MockClient::with_response(Ok(Response {
        status: 200,
        api_result: Some(FILE_METADATA_DOC.to_string()),
        body: "the contents".to_string(),
    }));
    let (m, resp) = files::download(&client, "/b.bin").unwrap();
    assert_eq!(m.name, "b.bin");
    assert_eq!(m.size, 1024);
    assert_eq!(resp.body, "the contents");
    let call = client.call(0);
    assert_eq!(call.endpoint, Endpoint::Content);
    assert_eq!(call.url, "files/download");
    assert_eq!(call.body, None);
    assert_eq!(
        MockClient::header(&call, "Dropbox-API-Arg").as_deref(),
        Some("{\"path\":\"/b.bin\"}")
    );
}

#[test]
fn download_without_api_result_fails() {
    let client = MockClient::with_body("the contents");
    assert_eq!(
        files::download(&client, "/b.bin"),
        Err(ApiError::ClientError)
    );
}

#[test]
fn upload_sends_argument_header_and_quoted_body() {
    let client = MockClient::with_body("");
    let m = files::upload(&client, "data", "/up").unwrap();
    assert_eq!(m.name, "");
    let call = client.call(0);
    assert_eq!(call.endpoint, Endpoint::Content);
    assert_eq!(call.url, "files/upload");
    assert_eq!(
        MockClient::header(&call, "Dropbox-API-Arg").as_deref(),
        Some("{\"autorename\":false,\"mode\":\"add\",\"mute\":false,\"path\":\"/up\"}")
    );
    assert_eq!(
        MockClient::header(&call, "Content-Type").as_deref(),
        Some("application/octet-stream")
    );
    assert_eq!(call.body.as_deref(), Some("\"data\""));
}

#[test]
fn upload_with_options_renders_the_mode() {
    let client = MockClient::with_body("");
    let options = files::UploadOptions {
        mode: files::WriteMode::Overwrite,
        autorename: true,
        client_modified: None,
        mute: false,
    };
    files::upload_with_options(&client, "x", "/up", options).unwrap();
    let call = client.call(0);
    assert_eq!(
        MockClient::header(&call, "Dropbox-API-Arg").as_deref(),
        Some("{\"autorename\":true,\"mode\":\"overwrite\",\"mute\":false,\"path\":\"/up\"}")
    );
}

#[test]
fn upload_ignores_the_transport_result() {
    let client = MockClient::with_response(Err(ApiError::ClientError));
    assert!(files::upload(&client, "data", "/up").is_ok());
}

#[test]
fn file_stubs_answer_placeholders() {
    let client = MockClient::with_body("");
    let m = files::get_metadata(&client, "/a", false).unwrap();
    assert_eq!(m.tag, Tag::File);
    assert_eq!(m.name, "");
    let m = files::move_(&client, "/a", "/b").unwrap();
    assert_eq!(m.name, "");
    let s = files::search(&client, "/", "query").unwrap();
    assert_eq!(s.matches.len(), 0);
    assert!(!s.more);
    let fl = files::list_folder_continue(&client, "cur").unwrap();
    assert_eq!(fl.entries.len(), 0);
    let cur = files::list_folder_get_latest_cursor(&client, "/").unwrap();
    assert_eq!(cur, "");
    let lp = files::list_folder_longpoll(&client, "cur", 30).unwrap();
    assert!(!lp.changes);
    assert_eq!(lp.backoff, None);
    let lr = files::list_revisions(&client, "/a", 10).unwrap();
    assert!(!lr.is_deleted);
    assert!(files::permanently_delete(&client, "/a").is_ok());
    assert!(files::restore(&client, "/a", "015").is_ok());
    assert!(files::upload_session_append(&client, "chunk".as_bytes(), "sid", 0).is_ok());
    let sid = files::upload_session_start(&client, "chunk".as_bytes()).unwrap();
    assert_eq!(sid, "");
    // None of the placeholder calls reached the transport.
    assert_eq!(client.calls.borrow().len(), 0);
}

#[test]
fn sharing_stubs_answer_placeholders() {
    let client = MockClient::with_body("");
    assert_eq!(
        sharing::check_job_status(&client, "job"),
        Ok(sharing::JobStatus::Complete)
    );
    match sharing::check_share_job_status(&client, "job").unwrap() {
        sharing::ShareFolderJobStatus::Complete(m) => assert_eq!(m.name, ""),
        sharing::ShareFolderJobStatus::Failed(_) => panic!("placeholder job must be complete"),
    }
    let m = sharing::create_shared_link(&client, "/a").unwrap();
    assert_eq!(m.name, "");
    let links = sharing::get_shared_links(&client, None).unwrap();
    assert_eq!(links.len(), 0);
    let members = sharing::list_folder_members(&client, "id").unwrap();
    assert_eq!(members.users.len(), 0);
    assert_eq!(members.cursor, "");
    let fl = sharing::list_folders(&client).unwrap();
    assert_eq!(fl.entries.len(), 0);
    assert!(sharing::add_folder_member(&client, "id", &["a@b.c"]).is_ok());
    assert!(sharing::revoke_shared_link(&client, "url").is_ok());
    assert!(sharing::unshare_folder(&client, "id", true).is_ok());
    match sharing::share_folder(&client, "/a").unwrap() {
        sharing::ShareFolderLaunch::Complete(m) => assert_eq!(m.name, ""),
    }
}

#[test]
fn account_batch_size_is_checked() {
    let client = MockClient::with_body("");
    let many: Vec<String> = (0..301).map(|i| format!("id{}", i)).collect();
    assert_eq!(
        users::get_account_batch(&client, &many),
        Err(ApiError::GetAccountBatchError)
    );
    let few: Vec<String> = (0..300).map(|i| format!("id{}", i)).collect();
    assert_eq!(users::get_account_batch(&client, &few), Ok(Vec::new()));
}

#[test]
fn users_stubs_answer_placeholders() {
    let client = MockClient::with_body("");
    let a = users::get_account(&client, "id").unwrap();
    assert_eq!(a.account_id, None);
    let a = users::get_current_account(&client).unwrap();
    assert_eq!(a.account_id, "");
    assert!(!a.is_paired);
    let u = users::get_space_usage(&client).unwrap();
    assert_eq!(u.used, 0);
    assert_eq!(u.allocation, 0);
}
