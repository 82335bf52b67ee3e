//! The default client configuration and the deterministic parts of
//! issuing a request: the URL for an endpoint, the headers every call
//! carries, and the reading of the raw response.
use vstd::prelude::*;
use vstd::string::StringExecFns;
use vstd::string::StrSliceExecFns;

use crate::json::{json_text_of, JsonValue};
use crate::{ApiError, Endpoint, Headers, Response};

verus! {

/// Configuration of the default client: the bearer token and the knobs a
/// caller may turn.
#[derive(Debug, PartialEq, Clone)]
pub struct Client {
    token: String,
    user_agent: String,
    proxies: Vec<String>,
    max_retries: u32,
    max_connections: u32,
}

/// The mathematical shape of a `Client`.
#[verifier::ext_equal]
pub struct ClientView {
    pub token: Seq<char>,
    pub user_agent: Seq<char>,
    pub proxies: Seq<Seq<char>>,
    pub max_retries: u32,
    pub max_connections: u32,
}

impl View for Client {
    type V = ClientView;

    closed spec fn view(&self) -> ClientView {
        ClientView {
            token: self.token@,
            user_agent: self.user_agent@,
            proxies: self.proxies.deep_view(),
            max_retries: self.max_retries,
            max_connections: self.max_connections,
        }
    }
}

impl Client {
    /// A client for the given bearer token. A token shorter than 62
    /// characters cannot be valid and is rejected; the other settings
    /// start from their defaults.
    pub fn new(token: &str) -> (r: Result<Client, ApiError>)
        ensures
            token@.len() < 62 <==> r is Err,
            r matches Err(e) ==> e == ApiError::TokenError,
            r matches Ok(c) ==> c@.token == token@ && c@.user_agent == "Dropbox SDK/Rust"@
                && c@.proxies.len() == 0 && c@.max_retries == 4 && c@.max_connections == 8,
    {
        if token.unicode_len() < 62 {
            Err(ApiError::TokenError)
        } else {
            let c = Client {
                token: token.to_owned(),
                proxies: Vec::new(),
                user_agent: "Dropbox SDK/Rust".to_owned(),
                max_retries: 4,
                max_connections: 8,
            };
            proof {
                assert(c@.proxies =~= Seq::<Seq<char>>::empty());
            }
            Ok(c)
        }
    }

    /// The same client with another user agent.
    pub fn user_agent(self, user_agent: &str) -> (r: Client)
        ensures
            r@.user_agent == user_agent@,
            r@.token == self@.token,
            r@.proxies == self@.proxies,
            r@.max_retries == self@.max_retries,
            r@.max_connections == self@.max_connections,
    {
        Client { user_agent: user_agent.to_owned(), ..self }
    }

    /// The same client with another retry limit.
    pub fn max_retries(self, max_retries: u32) -> (r: Client)
        ensures
            r@.max_retries == max_retries,
            r@.token == self@.token,
            r@.user_agent == self@.user_agent,
            r@.proxies == self@.proxies,
            r@.max_connections == self@.max_connections,
    {
        Client { max_retries, ..self }
    }

    /// The same client with another connection limit.
    pub fn max_connections(self, max_connections: u32) -> (r: Client)
        ensures
            r@.max_connections == max_connections,
            r@.token == self@.token,
            r@.user_agent == self@.user_agent,
            r@.proxies == self@.proxies,
            r@.max_retries == self@.max_retries,
    {
        Client { max_connections, ..self }
    }

    /// The same client with another proxy list.
    pub fn proxies(self, proxies: Vec<String>) -> (r: Client)
        ensures
            r@.proxies == proxies.deep_view(),
            r@.token == self@.token,
            r@.user_agent == self@.user_agent,
            r@.max_retries == self@.max_retries,
            r@.max_connections == self@.max_connections,
    {
        Client { proxies, ..self }
    }

    /// The bearer token this client signs requests with.
    pub fn access_token(&self) -> (r: &str)
        ensures
            r@ == self@.token,
    {
        self.token.as_str()
    }

    /// Adds to the caller's headers what every request carries: the JSON
    /// content type where none was chosen, and the bearer authorization.
    pub fn finish_headers(&self, headers: &mut Headers)
        ensures
            final(headers)@ == with_authorization(
                with_default_content_type(old(headers)@),
                self@.token,
            ),
    {
        if !headers.contains_key("Content-Type") {
            headers.insert("Content-Type", "application/json");
        }
        let mut auth = "Bearer ".to_owned();
        auth.append(self.token.as_str());
        headers.insert("Authorization", auth.as_str());
    }
}

/// A header map with the JSON content type filled in where none was set.
pub open spec fn with_default_content_type(m: Map<Seq<char>, Seq<char>>) -> Map<
    Seq<char>,
    Seq<char>,
> {
    if m.dom().contains("Content-Type"@) {
        m
    } else {
        m.insert("Content-Type"@, "application/json"@)
    }
}

/// A header map with the bearer authorization for `token` set.
pub open spec fn with_authorization(m: Map<Seq<char>, Seq<char>>, token: Seq<char>) -> Map<
    Seq<char>,
    Seq<char>,
> {
    m.insert("Authorization"@, "Bearer "@ + token)
}

/// The full URL of an endpoint: the host the endpoint lives on, the API
/// version, and the call's relative path.
pub open spec fn url_text(endpoint: Endpoint, path: Seq<char>) -> Seq<char> {
    (match endpoint {
        Endpoint::Api => "https://api.dropboxapi.com/2/"@,
        Endpoint::Content => "https://content.dropboxapi.com/2/"@,
    }) + path
}

impl Endpoint {
    /// The full URL for a call to `path` on this endpoint.
    pub fn url(&self, path: &str) -> (r: String)
        ensures
            r@ == url_text(*self, path@),
    {
        let mut s = match *self {
            Endpoint::Api => "https://api.dropboxapi.com/2/".to_owned(),
            Endpoint::Content => "https://content.dropboxapi.com/2/".to_owned(),
        };
        s.append(path);
        s
    }
}

/// The text a request body is sent as, if there is a body.
pub fn render_body(body: Option<&JsonValue>) -> (r: Option<String>)
    ensures
        (match body {
            Some(v) => r matches Some(b) && b@ == json_text_of(v@),
            None => r is None,
        }),
{
    match body {
        Some(v) => Some(v.render()),
        None => None,
    }
}

/// What a raw HTTP response means for the caller: a response on status
/// 200, the client error on anything else.
pub fn interpret_response(status: u16, api_result: Option<String>, body: String) -> (r: Result<
    Response,
    ApiError,
>)
    ensures
        status == 200 ==> (r matches Ok(resp) && resp.status == 200 && resp.api_result.deep_view()
            == api_result.deep_view() && resp.body@ == body@),
        status != 200 ==> r == Err::<Response, ApiError>(ApiError::ClientError),
{
    if status == 200 {
        Ok(Response { status, api_result, body })
    } else {
        Err(ApiError::ClientError)
    }
}

} // verus!
