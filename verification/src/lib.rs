//! A typed client library for the Dropbox HTTP API: endpoint functions
//! build JSON request bodies and the fixed set of headers each call needs,
//! hand them to a pluggable HTTP transport, and decode the JSON responses
//! into typed structures.
use vstd::prelude::*;

pub mod client;
pub mod files;
pub mod json;
pub mod sharing;
pub mod structs;
pub mod users;

verus! {

broadcast use vstd::seq::group_seq_axioms, vstd::std_specs::vec::group_vec_axioms;

/// The two hosts of the Dropbox API: RPC calls go to the `api` host,
/// content uploads and downloads to the `content` host.
#[derive(Clone, Copy, PartialEq, Eq, Structural, Debug)]
pub enum Endpoint {
    Api,
    Content,
}

impl Endpoint {
    /// The subdomain that this endpoint lives under.
    pub fn host(&self) -> (r: &'static str)
        ensures
            *self is Api ==> r@ == "api"@,
            *self is Content ==> r@ == "content"@,
    {
        match *self {
            Endpoint::Api => "api",
            Endpoint::Content => "content",
        }
    }
}

/// Everything that can go wrong with an API call.
#[derive(Debug, PartialEq, Eq, Structural, Clone)]
pub enum ApiError {
    AddFolderMemberError,
    ClientError,
    CreateFolderError,
    CreateSharedLinkError,
    DeleteError,
    DownloadError,
    GetAccountError,
    GetAccountBatchError,
    GetMetadataError,
    GetSharedLinksError,
    ListFolderError,
    ListFolderContinueError,
    ListFolderLongpollError,
    ListFolderMembersContinueError,
    ListFoldersContinueError,
    ListRevisionsError,
    MountFolderError,
    PollError,
    PreviewError,
    RelinquishFolderMembershipError,
    RelocationError,
    RemoveFolderMemberError,
    RestoreError,
    RevokeSharedLinkError,
    SearchError,
    ShareFolderError,
    SharedFolderAccessError,
    ThumbnailError,
    TokenError,
    TransferFolderError,
    UnmountFolderError,
    UnshareFolderError,
    UpdateFolderMemberError,
    UpdateFolderPolicyError,
    UploadError,
    UploadSessionLookupError,
    UploadSessionFinishError,
}

/// Simple abstraction of a HTTP response, so that the HTTP client stays
/// pluggable: the status code, the `dropbox-api-result` header if the
/// server sent one, and the body.
#[derive(Debug, PartialEq, Clone)]
pub struct Response {
    pub status: u16,
    pub api_result: Option<String>,
    pub body: String,
}

/// The headers of one request, keyed by header name; on a repeated name
/// the later entry wins, as it does when the entries are set on a raw
/// header table one by one.
pub struct Headers {
    entries: Vec<(String, String)>,
}

/// The map that an entry list denotes: each name maps to the last value
/// given for it.
pub open spec fn header_map_of(s: Seq<(Seq<char>, Seq<char>)>) -> Map<Seq<char>, Seq<char>>
    decreases s.len(),
{
    if s.len() == 0 {
        Map::empty()
    } else {
        header_map_of(s.drop_last()).insert(s.last().0, s.last().1)
    }
}

impl View for Headers {
    type V = Map<Seq<char>, Seq<char>>;

    closed spec fn view(&self) -> Map<Seq<char>, Seq<char>> {
        header_map_of(self.entries.deep_view())
    }
}

proof fn lemma_header_map_contains(s: Seq<(Seq<char>, Seq<char>)>, k: Seq<char>)
    ensures
        header_map_of(s).dom().contains(k) <==> exists|i: int|
            0 <= i < s.len() && #[trigger] s[i].0 == k,
    decreases s.len(),
{
    if s.len() > 0 {
        lemma_header_map_contains(s.drop_last(), k);
        if header_map_of(s).dom().contains(k) {
            if k == s.last().0 {
                assert(s[s.len() - 1].0 == k);
            } else {
                assert(header_map_of(s.drop_last()).dom().contains(k));
                let i = choose|i: int| 0 <= i < s.drop_last().len() && #[trigger] s.drop_last()[i].0 == k;
                assert(s.drop_last()[i] == s[i]);
                assert(s[i].0 == k);
            }
        }
        if exists|i: int| 0 <= i < s.len() && #[trigger] s[i].0 == k {
            let i = choose|i: int| 0 <= i < s.len() && #[trigger] s[i].0 == k;
            if i < s.len() - 1 {
                assert(s.drop_last()[i].0 == k);
                assert(header_map_of(s.drop_last()).dom().contains(k));
            } else {
                assert(k == s.last().0);
            }
        }
    }
}

impl Headers {
    /// An empty header table.
    pub fn new() -> (r: Headers)
        ensures
            r@ == Map::<Seq<char>, Seq<char>>::empty(),
    {
        Headers { entries: Vec::new() }
    }

    /// Sets `name` to `value`, replacing any earlier value.
    pub fn insert(&mut self, name: &str, value: &str)
        ensures
            final(self)@ == old(self)@.insert(name@, value@),
    {
        let ghost s0 = self.entries.deep_view();
        self.entries.push((name.to_owned(), value.to_owned()));
        proof {
            assert(self.entries.deep_view().drop_last() =~= s0);
        }
    }

    /// Whether a value has been set for `name`.
    pub fn contains_key(&self, name: &str) -> (r: bool)
        ensures
            r == self@.dom().contains(name@),
    {
        let ghost s = self.entries.deep_view();
        let mut i: usize = 0;
        while i < self.entries.len()
            invariant
                i <= self.entries.len(),
                s == self.entries.deep_view(),
                s.len() == self.entries.len(),
                forall|j: int| 0 <= j < i ==> s[j].0 != name@,
            decreases self.entries.len() - i,
        {
            proof {
                assert(s[i as int].0 == self.entries[i as int].0@);
            }
            if self.entries[i].0.eq(&name.to_owned()) {
                proof {
                    lemma_header_map_contains(s, name@);
                    assert(s[i as int].0 == name@);
                    assert(exists|j: int| 0 <= j < s.len() && #[trigger] s[j].0 == name@);
                }
                return true;
            }
            i = i + 1;
        }
        proof {
            lemma_header_map_contains(s, name@);
        }
        false
    }

    /// The entries in the order they were set, for handing to a raw
    /// header table.
    pub fn pairs(&self) -> (r: &Vec<(String, String)>)
        ensures
            header_map_of(r.deep_view()) == self@,
    {
        &self.entries
    }
}

/// The HTTP transport behind the endpoint functions. The library's own
/// `Client` holds the configuration; what carries the bytes is pluggable,
/// and an implementation promises only that a successful result carries
/// status 200.
pub trait DropboxClient: Sized {
    /// The OAuth2 bearer token that each request is signed with.
    fn access_token(&self) -> &str;

    /// Issues one POST to the given endpoint host and relative URL with
    /// the given headers and optional JSON body.
    fn request(
        &self,
        endpoint: Endpoint,
        url: &str,
        headers: &mut Headers,
        body: Option<&json::JsonValue>,
    ) -> (r: Result<Response, ApiError>)
        ensures
            r matches Ok(resp) ==> resp.status == 200,
    ;

    /// A POST to the `api` host.
    fn api(&self, url: &str, headers: &mut Headers, body: Option<&json::JsonValue>) -> (r: Result<
        Response,
        ApiError,
    >)
        ensures
            r matches Ok(resp) ==> resp.status == 200,
    {
        self.request(Endpoint::Api, url, headers, body)
    }

    /// A POST to the `content` host.
    fn content(&self, url: &str, headers: &mut Headers, body: Option<&json::JsonValue>) -> (r:
        Result<Response, ApiError>)
        ensures
            r matches Ok(resp) ==> resp.status == 200,
    {
        self.request(Endpoint::Content, url, headers, body)
    }
}

} // verus!
