use std::cell::RefCell;

use dbox::client::{interpret_response, render_body, Client};
use dbox::files;
use dbox::json::JsonValue;
use dbox::{ApiError, DropboxClient, Endpoint, Headers, Response};

struct RefusingClient {
    asked: RefCell<bool>,
}

impl DropboxClient for RefusingClient {
    fn access_token(&self) -> &str {
        ""
    }

    fn request(
        &self,
        _endpoint: Endpoint,
        _url: &str,
        _headers: &mut Headers,
        _body: Option<&JsonValue>,
    ) -> Result<Response, ApiError> {
        *self.asked.borrow_mut() = true;
        Err(ApiError::ClientError)
    }
}

#[test]
fn test_bad_auth() {
    if let Ok(_) = Client::new("asdf") {
        panic!("Malformed token should not be accepted");
    }

    let valid_looking_token = vec!["z"; 62].join("");
    assert!(Client::new(&valid_looking_token).is_ok());

    // A server that refuses the token refuses the listing with it.
    let client = RefusingClient { asked: RefCell::new(false) };
    if let Ok(_) = files::list_folder(&client, "") {
        panic!("Valid-looking but invalid token should not be accepted");
    }
    assert!(*client.asked.borrow());
}

#[test]
fn token_length_boundary() {
    let too_short = vec!["z"; 61].join("");
    match Client::new(&too_short) {
        Err(e) => assert_eq!(e, ApiError::TokenError),
        Ok(_) => panic!("a 61 character token must be refused"),
    }
    let long_enough = vec!["z"; 62].join("");
    let c = Client::new(&long_enough).unwrap();
    assert_eq!(c.access_token(), long_enough);
}

#[test]
fn builders_replace_one_setting() {
    let token = vec!["z"; 62].join("");
    let c = Client::new(&token).unwrap();
    assert_eq!(c.clone().user_agent("other agent"), c.clone().user_agent("other agent"));
    assert_ne!(c.clone().user_agent("other agent"), c);
    assert_ne!(c.clone().max_retries(9), c);
    assert_eq!(c.clone().max_retries(4), c);
    assert_ne!(c.clone().max_connections(9), c);
    assert_eq!(c.clone().max_connections(8), c);
    assert_ne!(c.clone().proxies(vec!["p".to_string()]), c);
    assert_eq!(c.clone().proxies(vec![]), c);
    // The token survives every builder.
    let d = c
        .clone()
        .user_agent("agent")
        .max_retries(1)
        .max_connections(2)
        .proxies(vec!["p".to_string()]);
    assert_eq!(d.access_token(), token);
}

#[test]
fn endpoint_hosts_and_urls() {
    assert_eq!(Endpoint::Api.host(), "api");
    assert_eq!(Endpoint::Content.host(), "content");
    assert_eq!(
        Endpoint::Api.url("files/copy"),
        "https://api.dropboxapi.com/2/files/copy"
    );
    assert_eq!(
        Endpoint::Content.url("files/download"),
        "https://content.dropboxapi.com/2/files/download"
    );
}

#[test]
fn headers_keep_the_last_value() {
    let mut h = Headers::new();
    assert!(!h.contains_key("Content-Type"));
    h.insert("Content-Type", "application/json");
    assert!(h.contains_key("Content-Type"));
    assert!(!h.contains_key("content-type"));
    h.insert("Content-Type", "text/plain");
    let pairs = h.pairs();
    let last = pairs.iter().rev().find(|(k, _)| k == "Content-Type").unwrap();
    assert_eq!(last.1, "text/plain");
}

#[test]
fn finish_headers_fills_what_is_missing() {
    let token = vec!["z"; 62].join("");
    let c = Client::new(&token).unwrap();

    let mut h = Headers::new();
    c.finish_headers(&mut h);
    let pairs = h.pairs();
    assert!(pairs.contains(&("Content-Type".to_string(), "application/json".to_string())));
    let bearer = format!("Bearer {}", token);
    assert!(pairs.contains(&("Authorization".to_string(), bearer.clone())));

    // A content type the caller chose stays.
    let mut h = Headers::new();
    h.insert("Content-Type", "application/octet-stream");
    c.finish_headers(&mut h);
    let pairs = h.pairs();
    assert!(pairs.contains(&("Content-Type".to_string(), "application/octet-stream".to_string())));
    assert!(!pairs.contains(&("Content-Type".to_string(), "application/json".to_string())));
    assert!(pairs.contains(&("Authorization".to_string(), bearer)));
}

#[test]
fn response_interpretation() {
    let ok = interpret_response(200, Some("meta".to_string()), "body".to_string());
    assert_eq!(
        ok,
        Ok(Response {
            status: 200,
            api_result: Some("meta".to_string()),
            body: "body".to_string(),
        })
    );
    assert_eq!(
        interpret_response(409, None, "conflict".to_string()),
        Err(ApiError::ClientError)
    );
    assert_eq!(
        interpret_response(500, None, "".to_string()),
        Err(ApiError::ClientError)
    );
}

#[test]
fn body_rendering_for_the_transport() {
    assert_eq!(render_body(None), None);
    let v = JsonValue::Boolean(true);
    assert_eq!(render_body(Some(&v)).as_deref(), Some("true"));
}
