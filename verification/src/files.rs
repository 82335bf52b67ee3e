//! Operations on the files in a Dropbox account: each call builds its
//! JSON request body and headers, hands them to the client, and decodes
//! the response.
use vstd::prelude::*;

use crate::json::{JsonValue, JsonView};
use crate::structs::{
    file_metadata_of_text, folder_list_default_view, folder_list_of_text, metadata_default_view,
    metadata_of_text, new_folder_of_text, FileMetadata, FolderList, Metadata, NewFolder,
};
use crate::{ApiError, DropboxClient, Headers, Response};

verus! {

broadcast use vstd::seq::group_seq_axioms, vstd::std_specs::vec::group_vec_axioms;

/// Instructs Dropbox what to do when a conflict happens during upload.
#[derive(Debug, PartialEq, Eq, Structural, Clone, Copy)]
pub enum WriteMode {
    Add,
    Overwrite,
    Update,
}

/// The name a write mode goes by on the wire.
pub open spec fn write_mode_text(m: WriteMode) -> Seq<char> {
    match m {
        WriteMode::Add => "add"@,
        WriteMode::Overwrite => "overwrite"@,
        WriteMode::Update => "update"@,
    }
}

impl WriteMode {
    /// The name this mode goes by on the wire.
    pub fn as_str(&self) -> (r: &'static str)
        ensures
            r@ == write_mode_text(*self),
    {
        match *self {
            WriteMode::Add => "add",
            WriteMode::Overwrite => "overwrite",
            WriteMode::Update => "update",
        }
    }
}

/// Optional arguments to the `upload` API call.
#[derive(Debug, PartialEq, Clone)]
pub struct UploadOptions {
    pub mode: WriteMode,
    pub autorename: bool,
    pub client_modified: Option<String>,
    pub mute: bool,
}

impl Default for UploadOptions {
    /// Add without renaming, quietly, with no client modification time.
    fn default() -> (r: UploadOptions)
        ensures
            r.mode == WriteMode::Add,
            !r.autorename,
            r.client_modified is None,
            !r.mute,
    {
        UploadOptions { mode: WriteMode::Add, autorename: false, client_modified: None, mute: false }
    }
}

/// The picture formats a thumbnail can come in.
#[derive(Debug, PartialEq, Eq, Structural, Clone, Copy)]
pub enum ThumbnailFormat {
    Jpeg,
    Png,
    Gif,
}

/// The sizes a thumbnail can come in.
#[derive(Debug, PartialEq, Eq, Structural, Clone, Copy)]
pub enum ThumbnailSize {
    W16H16,
    W32H32,
    W64H64,
    Other(usize, usize),
}

/// Optional arguments to the thumbnail API calls.
#[derive(Debug, PartialEq, Clone)]
pub struct ThumbnailOptions {
    pub format: ThumbnailFormat,
    pub size: ThumbnailSize,
}

impl Default for ThumbnailOptions {
    /// A 64 by 64 JPEG.
    fn default() -> (r: ThumbnailOptions)
        ensures
            r.format == ThumbnailFormat::Jpeg,
            r.size == ThumbnailSize::W64H64,
    {
        ThumbnailOptions { format: ThumbnailFormat::Jpeg, size: ThumbnailSize::W64H64 }
    }
}

/// Optional arguments when asking for a folder cursor.
#[derive(Debug, PartialEq, Clone)]
pub struct GetCursorOptions {
    pub recursive: bool,
    pub include_media_info: bool,
    pub include_deleted: bool,
}

impl Default for GetCursorOptions {
    /// Neither recursive nor including media info or deleted entries.
    fn default() -> (r: GetCursorOptions)
        ensures
            !r.recursive,
            !r.include_media_info,
            !r.include_deleted,
    {
        GetCursorOptions { recursive: false, include_media_info: false, include_deleted: false }
    }
}

/// What the longpoll API call returns.
#[derive(Debug, PartialEq, Clone)]
pub struct FolderListLongpoll {
    pub changes: bool,
    pub backoff: Option<bool>,
}

/// What the `list_revisions` API call returns.
#[derive(Debug, PartialEq, Clone)]
pub struct ListRevisions {
    pub is_deleted: bool,
    pub entries: Vec<Metadata>,
}

/// Where a search looks for the query.
#[derive(Debug, PartialEq, Eq, Structural, Clone, Copy)]
pub enum SearchMode {
    Filename,
    FilenameAndContent,
    DeletedFilename,
}

/// Optional arguments to the `search` API call.
#[derive(Debug, PartialEq, Clone)]
pub struct SearchOptions {
    pub start: usize,
    pub max_results: usize,
    pub mode: SearchMode,
}

impl Default for SearchOptions {
    /// The first hundred file name matches.
    fn default() -> (r: SearchOptions)
        ensures
            r.start == 0,
            r.max_results == 100,
            r.mode == SearchMode::Filename,
    {
        SearchOptions { start: 0, max_results: 100, mode: SearchMode::Filename }
    }
}

/// What part of an entry matched a search.
#[derive(Debug, PartialEq, Clone)]
pub enum SearchMatchType {
    Filename(String),
    Content(String),
    Both(String),
}

/// One entry that matched a search.
#[derive(Debug, PartialEq, Clone)]
pub struct SearchMatch {
    pub match_type: SearchMatchType,
    pub metadata: Metadata,
}

/// What the `search` API call returns.
#[derive(Debug, PartialEq, Clone)]
pub struct Search {
    pub matches: Vec<SearchMatch>,
    pub more: bool,
    pub start: usize,
}

/// What to commit at the end of an upload session.
#[derive(Debug, PartialEq, Clone)]
pub struct CommitInfo {
    pub path: String,
    pub mode: WriteMode,
    pub autorename: bool,
    pub client_modified: String,
    pub mute: bool,
}

/// Where an upload session stands.
#[derive(Debug, PartialEq, Clone)]
pub struct UploadSessionCursor {
    pub session_id: String,
    pub offset: usize,
}

// Request bodies

/// The body of a `copy` or `move` call: the two paths.
pub open spec fn relocation_body_view(from: Seq<char>, to: Seq<char>) -> JsonView {
    JsonView::Object(
        seq![("from_path"@, JsonView::Str(from)), ("to_path"@, JsonView::Str(to))],
    )
}

/// Builds the body of a `copy` or `move` call.
pub fn relocation_body(from: &str, to: &str) -> (r: JsonValue)
    ensures
        r@ == relocation_body_view(from@, to@),
{
    let mut entries: Vec<(String, JsonValue)> = Vec::new();
    entries.push(("from_path".to_owned(), JsonValue::Str(from.to_owned())));
    entries.push(("to_path".to_owned(), JsonValue::Str(to.to_owned())));
    let r = JsonValue::Object(entries);
    proof {
        reveal_with_fuel(crate::json::json_view, 2);
        assert(r@ is Object);
        assert(r@->Object_0 =~= relocation_body_view(from@, to@)->Object_0);
        assert(r@ == relocation_body_view(from@, to@));
    }
    r
}

/// The body of the calls that name one path.
pub open spec fn path_body_view(path: Seq<char>) -> JsonView {
    JsonView::Object(seq![("path"@, JsonView::Str(path))])
}

/// Builds the body of a call that names one path.
pub fn path_body(path: &str) -> (r: JsonValue)
    ensures
        r@ == path_body_view(path@),
{
    let mut entries: Vec<(String, JsonValue)> = Vec::new();
    entries.push(("path".to_owned(), JsonValue::Str(path.to_owned())));
    let r = JsonValue::Object(entries);
    proof {
        reveal_with_fuel(crate::json::json_view, 2);
        assert(r@ is Object);
        assert(r@->Object_0 =~= path_body_view(path@)->Object_0);
        assert(r@ == path_body_view(path@));
    }
    r
}

/// The body of a `list_folder` call: the path and the three flags, none
/// of which this client turns on.
pub open spec fn list_folder_body_view(path: Seq<char>) -> JsonView {
    JsonView::Object(
        seq![
            ("include_deleted"@, JsonView::Boolean(false)),
            ("include_media_info"@, JsonView::Boolean(false)),
            ("path"@, JsonView::Str(path)),
            ("recursive"@, JsonView::Boolean(false)),
        ],
    )
}

/// Builds the body of a `list_folder` call.
pub fn list_folder_body(path: &str) -> (r: JsonValue)
    ensures
        r@ == list_folder_body_view(path@),
{
    let mut entries: Vec<(String, JsonValue)> = Vec::new();
    entries.push(("include_deleted".to_owned(), JsonValue::Boolean(false)));
    entries.push(("include_media_info".to_owned(), JsonValue::Boolean(false)));
    entries.push(("path".to_owned(), JsonValue::Str(path.to_owned())));
    entries.push(("recursive".to_owned(), JsonValue::Boolean(false)));
    let r = JsonValue::Object(entries);
    proof {
        reveal_with_fuel(crate::json::json_view, 2);
        assert(r@ is Object);
        assert(r@->Object_0 =~= list_folder_body_view(path@)->Object_0);
        assert(r@ == list_folder_body_view(path@));
    }
    r
}

/// The argument document of an `upload` call, carried in a header.
pub open spec fn upload_arg_view(path: Seq<char>, options: UploadOptions) -> JsonView {
    JsonView::Object(
        seq![
            ("autorename"@, JsonView::Boolean(options.autorename)),
            ("mode"@, JsonView::Str(write_mode_text(options.mode))),
            ("mute"@, JsonView::Boolean(options.mute)),
            ("path"@, JsonView::Str(path)),
        ],
    )
}

/// Builds the argument document of an `upload` call.
pub fn upload_arg(path: &str, options: &UploadOptions) -> (r: JsonValue)
    ensures
        r@ == upload_arg_view(path@, *options),
{
    let mut entries: Vec<(String, JsonValue)> = Vec::new();
    entries.push(("autorename".to_owned(), JsonValue::Boolean(options.autorename)));
    entries.push(("mode".to_owned(), JsonValue::Str(options.mode.as_str().to_owned())));
    entries.push(("mute".to_owned(), JsonValue::Boolean(options.mute)));
    entries.push(("path".to_owned(), JsonValue::Str(path.to_owned())));
    let r = JsonValue::Object(entries);
    proof {
        reveal_with_fuel(crate::json::json_view, 2);
        assert(r@ is Object);
        assert(r@->Object_0 =~= upload_arg_view(path@, *options)->Object_0);
        assert(r@ == upload_arg_view(path@, *options));
    }
    r
}

// Functions

/// Copy a file: the server answers with the metadata of the copy, and a
/// successful result is exactly the decoding of the server's answer.
pub fn copy_<T: DropboxClient>(client: &T, from: &str, to: &str) -> (r: Result<Metadata, ApiError>)
    ensures
        r matches Ok(m) ==> exists|b: Seq<char>| metadata_of_text(b) == Some(m@),
{
    let body = relocation_body(from, to);
    let mut headers = Headers::new();
    headers.insert("Content-Type", "application/json");
    let resp = match client.api("files/copy", &mut headers, Some(&body)) {
        Ok(resp) => resp,
        Err(e) => {
            return Err(e);
        },
    };
    match Metadata::decode_text(resp.body.as_str()) {
        Some(m) => Ok(m),
        None => Err(ApiError::ClientError),
    }
}

/// Create a folder: a successful result is exactly the decoding of the
/// server's answer.
pub fn create_folder<T: DropboxClient>(client: &T, path: &str) -> (r: Result<NewFolder, ApiError>)
    ensures
        r matches Ok(nf) ==> exists|b: Seq<char>| new_folder_of_text(b) == Some(nf@),
{
    let body = path_body(path);
    let mut headers = Headers::new();
    headers.insert("Content-Type", "application/json");
    let resp = match client.api("files/create_folder", &mut headers, Some(&body)) {
        Ok(resp) => resp,
        Err(e) => {
            return Err(e);
        },
    };
    match NewFolder::decode_text(resp.body.as_str()) {
        Some(nf) => Ok(nf),
        None => Err(ApiError::ClientError),
    }
}

/// Delete a file or folder: a successful result is exactly the decoding
/// of the server's answer.
pub fn delete<T: DropboxClient>(client: &T, path: &str) -> (r: Result<Metadata, ApiError>)
    ensures
        r matches Ok(m) ==> exists|b: Seq<char>| metadata_of_text(b) == Some(m@),
{
    let body = path_body(path);
    let mut headers = Headers::new();
    headers.insert("Content-Type", "application/json");
    let resp = match client.api("files/delete", &mut headers, Some(&body)) {
        Ok(resp) => resp,
        Err(e) => {
            return Err(e);
        },
    };
    match Metadata::decode_text(resp.body.as_str()) {
        Some(m) => Ok(m),
        None => Err(ApiError::ClientError),
    }
}

/// Download a file. The file's metadata travels in the response's
/// `dropbox-api-result` header; a successful result is that header
/// decoded, beside the response whose body holds the contents.
pub fn download<T: DropboxClient>(client: &T, path: &str) -> (r: Result<
    (FileMetadata, Response),
    ApiError,
>)
    ensures
        r matches Ok(p) ==> {
            &&& p.1.status == 200
            &&& p.1.api_result.deep_view() matches Some(d) && file_metadata_of_text(d) == Some(
                p.0@,
            )
        },
{
    let arg = path_body(path);
    let arg_text = arg.render();
    let mut headers = Headers::new();
    headers.insert("Dropbox-API-Arg", arg_text.as_str());
    let resp = match client.content("files/download", &mut headers, None) {
        Ok(resp) => resp,
        Err(e) => {
            return Err(e);
        },
    };
    let metadata = match &resp.api_result {
        Some(data) => match FileMetadata::decode_text(data.as_str()) {
            Some(m) => m,
            None => {
                return Err(ApiError::ClientError);
            },
        },
        None => {
            return Err(ApiError::ClientError);
        },
    };
    Ok((metadata, resp))
}

/// Download a file to a local path: not carried out yet, the placeholder
/// answer is empty.
pub fn download_to_file<T: DropboxClient>(client: &T, dest_path: &str, path: &str) -> (r: Result<
    (Metadata, Response),
    ApiError,
>)
    ensures
        r matches Ok(p) ==> (p.0@ == metadata_default_view() && p.1.status == 200
            && p.1.api_result is None && p.1.body@ == Seq::<char>::empty()),
        r is Ok,
{
    Ok((Metadata::default(), Response { status: 200, api_result: None, body: String::new() }))
}

/// Metadata of one entry: not carried out yet, the placeholder answer is
/// the default metadata.
pub fn get_metadata<T: DropboxClient>(client: &T, path: &str, include_media_info: bool) -> (r:
    Result<Metadata, ApiError>)
    ensures
        r matches Ok(m) ==> m@ == metadata_default_view(),
        r is Ok,
{
    Ok(Metadata::default())
}

/// Preview of a file: not carried out yet, the placeholder answer is
/// empty.
pub fn get_preview<T: DropboxClient>(client: &T, path: &str) -> (r: Result<
    (Metadata, Response),
    ApiError,
>)
    ensures
        r matches Ok(p) ==> (p.0@ == metadata_default_view() && p.1.status == 200
            && p.1.api_result is None && p.1.body@ == Seq::<char>::empty()),
        r is Ok,
{
    Ok((Metadata::default(), Response { status: 200, api_result: None, body: String::new() }))
}

/// Preview of a file written to a local path: not carried out yet, the
/// placeholder answer is empty.
pub fn get_preview_to_file<T: DropboxClient>(client: &T, dest_path: &str, path: &str) -> (r: Result<
    (Metadata, Response),
    ApiError,
>)
    ensures
        r matches Ok(p) ==> (p.0@ == metadata_default_view() && p.1.status == 200
            && p.1.api_result is None && p.1.body@ == Seq::<char>::empty()),
        r is Ok,
{
    Ok((Metadata::default(), Response { status: 200, api_result: None, body: String::new() }))
}

/// Thumbnail of a file in the default format and size.
pub fn get_thumbnail<T: DropboxClient>(client: &T, path: &str) -> (r: Result<
    (Metadata, Response),
    ApiError,
>)
    ensures
        r matches Ok(p) ==> (p.0@ == metadata_default_view() && p.1.status == 200
            && p.1.api_result is None && p.1.body@ == Seq::<char>::empty()),
        r is Ok,
{
    get_thumbnail_with_options(client, path, ThumbnailOptions::default())
}

/// Thumbnail of a file: not carried out yet, the placeholder answer is
/// empty.
pub fn get_thumbnail_with_options<T: DropboxClient>(
    client: &T,
    path: &str,
    options: ThumbnailOptions,
) -> (r: Result<(Metadata, Response), ApiError>)
    ensures
        r matches Ok(p) ==> (p.0@ == metadata_default_view() && p.1.status == 200
            && p.1.api_result is None && p.1.body@ == Seq::<char>::empty()),
        r is Ok,
{
    Ok((Metadata::default(), Response { status: 200, api_result: None, body: String::new() }))
}

/// Thumbnail written to a local path, in the default format and size.
pub fn get_thumbnail_to_file<T: DropboxClient>(client: &T, dest_path: &str, path: &str) -> (r:
    Result<(Metadata, Response), ApiError>)
    ensures
        r matches Ok(p) ==> (p.0@ == metadata_default_view() && p.1.status == 200
            && p.1.api_result is None && p.1.body@ == Seq::<char>::empty()),
        r is Ok,
{
    get_thumbnail_to_file_with_options(client, dest_path, path, ThumbnailOptions::default())
}

/// Thumbnail written to a local path: not carried out yet, the
/// placeholder answer is empty.
pub fn get_thumbnail_to_file_with_options<T: DropboxClient>(
    client: &T,
    dest_path: &str,
    path: &str,
    options: ThumbnailOptions,
) -> (r: Result<(Metadata, Response), ApiError>)
    ensures
        r matches Ok(p) ==> (p.0@ == metadata_default_view() && p.1.status == 200
            && p.1.api_result is None && p.1.body@ == Seq::<char>::empty()),
        r is Ok,
{
    Ok((Metadata::default(), Response { status: 200, api_result: None, body: String::new() }))
}

/// List the entries in a folder: a successful result is exactly the
/// decoding of the server's answer.
pub fn list_folder<T: DropboxClient>(client: &T, path: &str) -> (r: Result<FolderList, ApiError>)
    ensures
        r matches Ok(fl) ==> exists|b: Seq<char>| folder_list_of_text(b) == Some(fl@),
{
    let body = list_folder_body(path);
    let mut headers = Headers::new();
    headers.insert("Content-Type", "application/json");
    let resp = match client.api("files/list_folder", &mut headers, Some(&body)) {
        Ok(resp) => resp,
        Err(e) => {
            return Err(e);
        },
    };
    match FolderList::decode_text(resp.body.as_str()) {
        Some(fl) => Ok(fl),
        None => Err(ApiError::ClientError),
    }
}

/// Continue a folder listing: not carried out yet, the placeholder
/// answer is the empty listing.
pub fn list_folder_continue<T: DropboxClient>(client: &T, cursor: &str) -> (r: Result<
    FolderList,
    ApiError,
>)
    ensures
        r matches Ok(fl) ==> fl@ == folder_list_default_view(),
        r is Ok,
{
    Ok(FolderList::default())
}

/// The latest cursor for a folder, with the default options.
pub fn list_folder_get_latest_cursor<T: DropboxClient>(client: &T, path: &str) -> (r: Result<
    String,
    ApiError,
>)
    ensures
        r matches Ok(s) ==> s@ == Seq::<char>::empty(),
        r is Ok,
{
    list_folder_get_latest_cursor_with_options(client, path, GetCursorOptions::default())
}

/// The latest cursor for a folder: not carried out yet, the placeholder
/// answer is empty.
pub fn list_folder_get_latest_cursor_with_options<T: DropboxClient>(
    client: &T,
    path: &str,
    options: GetCursorOptions,
) -> (r: Result<String, ApiError>)
    ensures
        r matches Ok(s) ==> s@ == Seq::<char>::empty(),
        r is Ok,
{
    Ok(String::new())
}

/// Wait for changes behind a cursor: not carried out yet, the
/// placeholder answer reports none.
pub fn list_folder_longpoll<T: DropboxClient>(client: &T, cursor: &str, timeout: usize) -> (r:
    Result<FolderListLongpoll, ApiError>)
    ensures
        r matches Ok(l) ==> !l.changes && l.backoff is None,
        r is Ok,
{
    Ok(FolderListLongpoll { changes: false, backoff: None })
}

/// The revisions of a file: not carried out yet, the placeholder answer
/// is empty.
pub fn list_revisions<T: DropboxClient>(client: &T, path: &str, limit: usize) -> (r: Result<
    ListRevisions,
    ApiError,
>)
    ensures
        r matches Ok(l) ==> !l.is_deleted && l.entries@.len() == 0,
        r is Ok,
{
    Ok(ListRevisions { is_deleted: false, entries: Vec::new() })
}

/// Move a file: not carried out yet, the placeholder answer is the
/// default metadata.
pub fn move_<T: DropboxClient>(client: &T, from: &str, to: &str) -> (r: Result<Metadata, ApiError>)
    ensures
        r matches Ok(m) ==> m@ == metadata_default_view(),
        r is Ok,
{
    Ok(Metadata::default())
}

/// Delete for good: not carried out yet, the placeholder answer is
/// silence.
pub fn permanently_delete<T: DropboxClient>(client: &T, path: &str) -> (r: Result<(), ApiError>)
    ensures
        r is Ok,
{
    Ok(())
}

/// Restore a revision: not carried out yet, the placeholder answer is
/// the default metadata.
pub fn restore<T: DropboxClient>(client: &T, path: &str, rev: &str) -> (r: Result<
    Metadata,
    ApiError,
>)
    ensures
        r matches Ok(m) ==> m@ == metadata_default_view(),
        r is Ok,
{
    Ok(Metadata::default())
}

/// Search under a path with the default options.
pub fn search<T: DropboxClient>(client: &T, path: &str, query: &str) -> (r: Result<
    Search,
    ApiError,
>)
    ensures
        r matches Ok(s) ==> (s.matches@.len() == 0 && !s.more && s.start == 0),
        r is Ok,
{
    search_with_options(client, path, query, SearchOptions::default())
}

/// Search under a path: not carried out yet, the placeholder answer is
/// empty.
pub fn search_with_options<T: DropboxClient>(
    client: &T,
    path: &str,
    query: &str,
    options: SearchOptions,
) -> (r: Result<Search, ApiError>)
    ensures
        r matches Ok(s) ==> (s.matches@.len() == 0 && !s.more && s.start == 0),
        r is Ok,
{
    Ok(Search { matches: Vec::new(), more: false, start: 0 })
}

/// Upload a file's contents with the default options.
pub fn upload<T: DropboxClient>(client: &T, contents: &str, path: &str) -> (r: Result<
    Metadata,
    ApiError,
>)
    ensures
        r matches Ok(m) ==> m@ == metadata_default_view(),
        r is Ok,
{
    upload_with_options(client, contents, path, UploadOptions::default())
}

/// Upload a file's contents. The call goes out with the argument
/// document in a header and the contents as the body; what the server
/// answers is not read yet, so the answer is the default metadata
/// whatever happened on the wire.
pub fn upload_with_options<T: DropboxClient>(
    client: &T,
    contents: &str,
    path: &str,
    options: UploadOptions,
) -> (r: Result<Metadata, ApiError>)
    ensures
        r matches Ok(m) ==> m@ == metadata_default_view(),
        r is Ok,
{
    let arg = upload_arg(path, &options);
    let arg_text = arg.render();
    let mut headers = Headers::new();
    headers.insert("Dropbox-API-Arg", arg_text.as_str());
    headers.insert("Content-Type", "application/octet-stream");
    let body = JsonValue::Str(contents.to_owned());
    let _ = client.content("files/upload", &mut headers, Some(&body));
    Ok(Metadata::default())
}

/// Add a chunk to an upload session: not carried out yet, the
/// placeholder answer is silence.
pub fn upload_session_append<T: DropboxClient, U>(
    client: &T,
    f: U,
    session_id: &str,
    offset: usize,
) -> (r: Result<(), ApiError>)
    ensures
        r is Ok,
{
    Ok(())
}

/// Close an upload session: not carried out yet, the placeholder answer
/// is the default metadata.
pub fn upload_session_finish<T: DropboxClient, U>(
    client: &T,
    f: U,
    cursor: &UploadSessionCursor,
    commit: &CommitInfo,
) -> (r: Result<Metadata, ApiError>)
    ensures
        r matches Ok(m) ==> m@ == metadata_default_view(),
        r is Ok,
{
    Ok(Metadata::default())
}

/// Open an upload session: not carried out yet, the placeholder answer
/// is an empty session id.
pub fn upload_session_start<T: DropboxClient, U>(client: &T, f: U) -> (r: Result<String, ApiError>)
    ensures
        r matches Ok(s) ==> s@ == Seq::<char>::empty(),
        r is Ok,
{
    Ok(String::new())
}

} // verus!
