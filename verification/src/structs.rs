//! The data structures of the Dropbox API and the decoding of the JSON
//! documents the server sends into them.
use vstd::prelude::*;

use crate::json::{json_get, json_parse_of, json_view, parse_json, JsonValue, JsonView};

verus! {

broadcast use vstd::seq::group_seq_axioms, vstd::std_specs::vec::group_vec_axioms;

/// Whether an entry is a file or a folder, as the `.tag` member of a
/// metadata document says.
#[derive(Debug, PartialEq, Eq, Structural, Clone, Copy)]
pub enum Tag {
    File,
    Folder,
}

/// The JSON value that a tag serializes to.
pub open spec fn tag_text(t: Tag) -> Seq<char> {
    match t {
        Tag::File => "file"@,
        Tag::Folder => "folder"@,
    }
}

/// The tag that a JSON value decodes to: the strings `file` and `folder`
/// and nothing else.
pub open spec fn tag_of_json(w: JsonView) -> Option<Tag> {
    match w {
        JsonView::Str(s) => if s == "file"@ {
            Some(Tag::File)
        } else if s == "folder"@ {
            Some(Tag::Folder)
        } else {
            None
        },
        _ => None,
    }
}

impl Tag {
    /// The JSON value for this tag.
    pub fn encode(&self) -> (r: JsonValue)
        ensures
            r@ == JsonView::Str(tag_text(*self)),
    {
        match *self {
            Tag::File => JsonValue::Str("file".to_owned()),
            Tag::Folder => JsonValue::Str("folder".to_owned()),
        }
    }

    /// The tag in a JSON value, if it holds one.
    pub fn decode(v: &JsonValue) -> (r: Option<Tag>)
        ensures
            r == tag_of_json(v@),
    {
        match v {
            JsonValue::Str(s) => {
                if s.eq(&"file".to_owned()) {
                    Some(Tag::File)
                } else if s.eq(&"folder".to_owned()) {
                    Some(Tag::Folder)
                } else {
                    None
                }
            },
            _ => None,
        }
    }
}

/// Sharing state of an entry inside a shared folder.
#[derive(Debug, PartialEq, Clone)]
pub struct SharingInfo {
    pub read_only: bool,
    pub parent_shared_folder_id: String,
}

/// The mathematical shape of a `SharingInfo`.
#[verifier::ext_equal]
pub struct SharingInfoView {
    pub read_only: bool,
    pub parent_shared_folder_id: Seq<char>,
}

impl View for SharingInfo {
    type V = SharingInfoView;

    open spec fn view(&self) -> SharingInfoView {
        SharingInfoView {
            read_only: self.read_only,
            parent_shared_folder_id: self.parent_shared_folder_id@,
        }
    }
}

impl DeepView for SharingInfo {
    type V = SharingInfoView;

    open spec fn deep_view(&self) -> SharingInfoView {
        self.view()
    }
}

/// A string member that must be present: anything else fails the decode.
pub open spec fn req_str_field(v: JsonView, key: Seq<char>) -> Option<Seq<char>> {
    match json_get(v, key) {
        Some(JsonView::Str(s)) => Some(s),
        _ => None,
    }
}

/// A string member that may be absent or null, which both read as `None`;
/// a value of any other type fails the decode.
pub open spec fn opt_str_field(v: JsonView, key: Seq<char>) -> Option<Option<Seq<char>>> {
    match json_get(v, key) {
        None => Some(None),
        Some(JsonView::Null) => Some(None),
        Some(JsonView::Str(s)) => Some(Some(s)),
        Some(_) => None,
    }
}

/// A boolean member that must be present.
pub open spec fn req_bool_field(v: JsonView, key: Seq<char>) -> Option<bool> {
    match json_get(v, key) {
        Some(JsonView::Boolean(b)) => Some(b),
        _ => None,
    }
}

/// A size member that must be present: a non-negative number that fits a
/// `usize`.
pub open spec fn req_usize_field(v: JsonView, key: Seq<char>) -> Option<usize> {
    match json_get(v, key) {
        Some(JsonView::U64(n)) => if n <= usize::MAX as u64 {
            Some(n as usize)
        } else {
            None
        },
        _ => None,
    }
}

/// A size member that may be absent or null.
pub open spec fn opt_usize_field(v: JsonView, key: Seq<char>) -> Option<Option<usize>> {
    match json_get(v, key) {
        None => Some(None),
        Some(JsonView::Null) => Some(None),
        Some(JsonView::U64(n)) => if n <= usize::MAX as u64 {
            Some(Some(n as usize))
        } else {
            None
        },
        Some(_) => None,
    }
}

/// The sharing info in a JSON document: both members required.
pub open spec fn sharing_info_of_json(v: JsonView) -> Option<SharingInfoView> {
    match (req_bool_field(v, "read_only"@), req_str_field(v, "parent_shared_folder_id"@)) {
        (Some(ro), Some(id)) => Some(
            SharingInfoView { read_only: ro, parent_shared_folder_id: id },
        ),
        _ => None,
    }
}

/// A sharing info member that may be absent or null.
pub open spec fn opt_sharing_field(v: JsonView, key: Seq<char>) -> Option<
    Option<SharingInfoView>,
> {
    match json_get(v, key) {
        None => Some(None),
        Some(JsonView::Null) => Some(None),
        Some(w) => match sharing_info_of_json(w) {
            Some(si) => Some(Some(si)),
            None => None,
        },
    }
}

impl SharingInfo {
    /// The sharing info in a JSON value, if it holds one.
    pub fn decode(v: &JsonValue) -> (r: Option<SharingInfo>)
        ensures
            (match r {
                Some(si) => sharing_info_of_json(v@) == Some(si@),
                None => sharing_info_of_json(v@) is None,
            }),
    {
        let read_only = match v.get("read_only") {
            Some(JsonValue::Boolean(b)) => *b,
            _ => {
                return None;
            },
        };
        let parent = match v.get("parent_shared_folder_id") {
            Some(JsonValue::Str(s)) => s.clone(),
            _ => {
                return None;
            },
        };
        Some(SharingInfo { read_only, parent_shared_folder_id: parent })
    }
}

/// What the server says about one file or folder.
#[derive(Debug, PartialEq, Clone)]
pub struct Metadata {
    pub tag: Tag,
    pub name: String,
    pub path_lower: String,
    pub id: String,
    pub size: Option<usize>,
    pub rev: Option<String>,
    pub client_modified: Option<String>,
    pub server_modified: Option<String>,
    pub sharing_info: Option<SharingInfo>,
}

/// The mathematical shape of a `Metadata`.
#[verifier::ext_equal]
pub struct MetadataView {
    pub tag: Tag,
    pub name: Seq<char>,
    pub path_lower: Seq<char>,
    pub id: Seq<char>,
    pub size: Option<usize>,
    pub rev: Option<Seq<char>>,
    pub client_modified: Option<Seq<char>>,
    pub server_modified: Option<Seq<char>>,
    pub sharing_info: Option<SharingInfoView>,
}

impl View for Metadata {
    type V = MetadataView;

    open spec fn view(&self) -> MetadataView {
        MetadataView {
            tag: self.tag,
            name: self.name@,
            path_lower: self.path_lower@,
            id: self.id@,
            size: self.size,
            rev: self.rev.deep_view(),
            client_modified: self.client_modified.deep_view(),
            server_modified: self.server_modified.deep_view(),
            sharing_info: self.sharing_info.deep_view(),
        }
    }
}

impl DeepView for Metadata {
    type V = MetadataView;

    open spec fn deep_view(&self) -> MetadataView {
        self.view()
    }
}

/// The metadata in a JSON document: the `.tag` and the identifying
/// strings are required, the rest may be absent or null.
pub open spec fn metadata_of_json(v: JsonView) -> Option<MetadataView> {
    match (
        match json_get(v, ".tag"@) {
            Some(w) => tag_of_json(w),
            None => None,
        },
        req_str_field(v, "name"@),
        req_str_field(v, "path_lower"@),
        req_str_field(v, "id"@),
        opt_str_field(v, "client_modified"@),
        opt_str_field(v, "server_modified"@),
        opt_str_field(v, "rev"@),
        opt_usize_field(v, "size"@),
        opt_sharing_field(v, "sharing_info"@),
    ) {
        (
            Some(tag),
            Some(name),
            Some(path_lower),
            Some(id),
            Some(client_modified),
            Some(server_modified),
            Some(rev),
            Some(size),
            Some(sharing_info),
        ) => Some(
            MetadataView {
                tag,
                name,
                path_lower,
                id,
                size,
                rev,
                client_modified,
                server_modified,
                sharing_info,
            },
        ),
        _ => None,
    }
}

/// The metadata in a JSON text: parse, then read the members.
pub open spec fn metadata_of_text(s: Seq<char>) -> Option<MetadataView> {
    match json_parse_of(s) {
        Some(v) => metadata_of_json(v),
        None => None,
    }
}

impl Metadata {
    /// The metadata in a JSON value, if it holds one.
    pub fn decode(v: &JsonValue) -> (r: Option<Metadata>)
        ensures
            (match r {
                Some(m) => metadata_of_json(v@) == Some(m@),
                None => metadata_of_json(v@) is None,
            }),
    {
        let tag = match v.get(".tag") {
            Some(w) => match Tag::decode(w) {
                Some(t) => t,
                None => {
                    return None;
                },
            },
            None => {
                return None;
            },
        };
        let name = match v.get("name") {
            Some(JsonValue::Str(s)) => s.clone(),
            _ => {
                return None;
            },
        };
        let path_lower = match v.get("path_lower") {
            Some(JsonValue::Str(s)) => s.clone(),
            _ => {
                return None;
            },
        };
        let id = match v.get("id") {
            Some(JsonValue::Str(s)) => s.clone(),
            _ => {
                return None;
            },
        };
        let client_modified = match v.get("client_modified") {
            None => None,
            Some(JsonValue::Null) => None,
            Some(JsonValue::Str(s)) => Some(s.clone()),
            Some(_) => {
                return None;
            },
        };
        let server_modified = match v.get("server_modified") {
            None => None,
            Some(JsonValue::Null) => None,
            Some(JsonValue::Str(s)) => Some(s.clone()),
            Some(_) => {
                return None;
            },
        };
        let rev = match v.get("rev") {
            None => None,
            Some(JsonValue::Null) => None,
            Some(JsonValue::Str(s)) => Some(s.clone()),
            Some(_) => {
                return None;
            },
        };
        let size = match v.get("size") {
            None => None,
            Some(JsonValue::Null) => None,
            Some(JsonValue::U64(n)) => {
                if *n <= usize::MAX as u64 {
                    Some(*n as usize)
                } else {
                    return None;
                }
            },
            Some(_) => {
                return None;
            },
        };
        let sharing_info = match v.get("sharing_info") {
            None => None,
            Some(JsonValue::Null) => None,
            Some(w) => match SharingInfo::decode(w) {
                Some(si) => Some(si),
                None => {
                    return None;
                },
            },
        };
        Some(
            Metadata {
                tag,
                name,
                path_lower,
                id,
                size,
                rev,
                client_modified,
                server_modified,
                sharing_info,
            },
        )
    }

    /// The metadata in a JSON text, if it parses and holds one.
    pub fn decode_text(s: &str) -> (r: Option<Metadata>)
        ensures
            (match r {
                Some(m) => metadata_of_text(s@) == Some(m@),
                None => metadata_of_text(s@) is None,
            }),
    {
        match parse_json(s) {
            Some(v) => Metadata::decode(&v),
            None => None,
        }
    }
}

/// The default metadata: a file with empty names and the optional members
/// filled with empty values.
pub open spec fn metadata_default_view() -> MetadataView {
    MetadataView {
        tag: Tag::File,
        name: Seq::empty(),
        path_lower: Seq::empty(),
        id: Seq::empty(),
        size: Some(0usize),
        rev: Some(Seq::empty()),
        client_modified: Some(Seq::empty()),
        server_modified: Some(Seq::empty()),
        sharing_info: Some(
            SharingInfoView { read_only: false, parent_shared_folder_id: Seq::empty() },
        ),
    }
}

impl Default for Metadata {
    fn default() -> (r: Metadata)
        ensures
            r@ == metadata_default_view(),
    {
        let r = Metadata {
            tag: Tag::File,
            name: String::new(),
            path_lower: String::new(),
            id: String::new(),
            size: Some(0),
            rev: Some(String::new()),
            client_modified: Some(String::new()),
            server_modified: Some(String::new()),
            sharing_info: Some(
                SharingInfo { read_only: false, parent_shared_folder_id: String::new() },
            ),
        };
        proof {
            assert(r@ =~~= metadata_default_view());
        }
        r
    }
}

/// What the server says about one file when only files can appear.
#[derive(Debug, PartialEq, Clone)]
pub struct FileMetadata {
    pub name: String,
    pub path_lower: String,
    pub id: String,
    pub client_modified: String,
    pub server_modified: String,
    pub rev: String,
    pub size: usize,
    pub sharing_info: Option<SharingInfo>,
    pub media_info: Option<()>,
}

/// The mathematical shape of a `FileMetadata`.
#[verifier::ext_equal]
pub struct FileMetadataView {
    pub name: Seq<char>,
    pub path_lower: Seq<char>,
    pub id: Seq<char>,
    pub client_modified: Seq<char>,
    pub server_modified: Seq<char>,
    pub rev: Seq<char>,
    pub size: usize,
    pub sharing_info: Option<SharingInfoView>,
    pub media_info: Option<()>,
}

impl View for FileMetadata {
    type V = FileMetadataView;

    open spec fn view(&self) -> FileMetadataView {
        FileMetadataView {
            name: self.name@,
            path_lower: self.path_lower@,
            id: self.id@,
            client_modified: self.client_modified@,
            server_modified: self.server_modified@,
            rev: self.rev@,
            size: self.size,
            sharing_info: self.sharing_info.deep_view(),
            media_info: self.media_info,
        }
    }
}

/// The file metadata in a JSON document: every string member and the size
/// are required, the sharing info may be absent or null, and a media info
/// member may only be absent or null.
pub open spec fn file_metadata_of_json(v: JsonView) -> Option<FileMetadataView> {
    match (
        req_str_field(v, "name"@),
        req_str_field(v, "path_lower"@),
        req_str_field(v, "id"@),
        req_str_field(v, "client_modified"@),
        req_str_field(v, "server_modified"@),
        req_str_field(v, "rev"@),
        req_usize_field(v, "size"@),
        opt_sharing_field(v, "sharing_info"@),
    ) {
        (
            Some(name),
            Some(path_lower),
            Some(id),
            Some(client_modified),
            Some(server_modified),
            Some(rev),
            Some(size),
            Some(sharing_info),
        ) => if json_get(v, "media_info"@) is None || json_get(v, "media_info"@) == Some(
            JsonView::Null,
        ) {
            Some(
                FileMetadataView {
                    name,
                    path_lower,
                    id,
                    client_modified,
                    server_modified,
                    rev,
                    size,
                    sharing_info,
                    media_info: None,
                },
            )
        } else {
            None
        },
        _ => None,
    }
}

/// The file metadata in a JSON text.
pub open spec fn file_metadata_of_text(s: Seq<char>) -> Option<FileMetadataView> {
    match json_parse_of(s) {
        Some(v) => file_metadata_of_json(v),
        None => None,
    }
}

impl FileMetadata {
    /// The file metadata in a JSON value, if it holds one.
    pub fn decode(v: &JsonValue) -> (r: Option<FileMetadata>)
        ensures
            (match r {
                Some(m) => file_metadata_of_json(v@) == Some(m@),
                None => file_metadata_of_json(v@) is None,
            }),
    {
        let name = match v.get("name") {
            Some(JsonValue::Str(s)) => s.clone(),
            _ => {
                return None;
            },
        };
        let path_lower = match v.get("path_lower") {
            Some(JsonValue::Str(s)) => s.clone(),
            _ => {
                return None;
            },
        };
        let id = match v.get("id") {
            Some(JsonValue::Str(s)) => s.clone(),
            _ => {
                return None;
            },
        };
        let client_modified = match v.get("client_modified") {
            Some(JsonValue::Str(s)) => s.clone(),
            _ => {
                return None;
            },
        };
        let server_modified = match v.get("server_modified") {
            Some(JsonValue::Str(s)) => s.clone(),
            _ => {
                return None;
            },
        };
        let rev = match v.get("rev") {
            Some(JsonValue::Str(s)) => s.clone(),
            _ => {
                return None;
            },
        };
        let size = match v.get("size") {
            Some(JsonValue::U64(n)) => {
                if *n <= usize::MAX as u64 {
                    *n as usize
                } else {
                    return None;
                }
            },
            _ => {
                return None;
            },
        };
        let sharing_info = match v.get("sharing_info") {
            None => None,
            Some(JsonValue::Null) => None,
            Some(w) => match SharingInfo::decode(w) {
                Some(si) => Some(si),
                None => {
                    return None;
                },
            },
        };
        match v.get("media_info") {
            None => (),
            Some(JsonValue::Null) => (),
            Some(_) => {
                return None;
            },
        };
        Some(
            FileMetadata {
                name,
                path_lower,
                id,
                client_modified,
                server_modified,
                rev,
                size,
                sharing_info,
                media_info: None,
            },
        )
    }

    /// The file metadata in a JSON text, if it parses and holds one.
    pub fn decode_text(s: &str) -> (r: Option<FileMetadata>)
        ensures
            (match r {
                Some(m) => file_metadata_of_text(s@) == Some(m@),
                None => file_metadata_of_text(s@) is None,
            }),
    {
        match parse_json(s) {
            Some(v) => FileMetadata::decode(&v),
            None => None,
        }
    }
}

/// The default file metadata: empty strings and a size of zero.
pub open spec fn file_metadata_default_view() -> FileMetadataView {
    FileMetadataView {
        name: Seq::empty(),
        path_lower: Seq::empty(),
        id: Seq::empty(),
        client_modified: Seq::empty(),
        server_modified: Seq::empty(),
        rev: Seq::empty(),
        size: 0usize,
        sharing_info: None,
        media_info: None,
    }
}

impl Default for FileMetadata {
    fn default() -> (r: FileMetadata)
        ensures
            r@ == file_metadata_default_view(),
    {
        let r = FileMetadata {
            name: String::new(),
            path_lower: String::new(),
            client_modified: String::new(),
            server_modified: String::new(),
            rev: String::new(),
            size: 0,
            id: String::new(),
            sharing_info: None,
            media_info: None,
        };
        proof {
            assert(r@ =~~= file_metadata_default_view());
        }
        r
    }
}

/// What the `list_folder` API call returns.
#[derive(Debug, PartialEq, Clone)]
pub struct FolderList {
    pub entries: Vec<Metadata>,
    pub cursor: String,
    pub has_more: bool,
}

/// The mathematical shape of a `FolderList`.
#[verifier::ext_equal]
pub struct FolderListView {
    pub entries: Seq<MetadataView>,
    pub cursor: Seq<char>,
    pub has_more: bool,
}

impl View for FolderList {
    type V = FolderListView;

    open spec fn view(&self) -> FolderListView {
        FolderListView {
            entries: self.entries.deep_view(),
            cursor: self.cursor@,
            has_more: self.has_more,
        }
    }
}

/// The first `i` members of an array read as metadata; one failure fails
/// them all.
pub open spec fn metadatas_of_json(a: Seq<JsonView>, i: int) -> Option<Seq<MetadataView>>
    decreases i,
{
    if i <= 0 {
        Some(Seq::empty())
    } else {
        match (metadatas_of_json(a, i - 1), metadata_of_json(a[i - 1])) {
            (Some(s), Some(m)) => Some(s.push(m)),
            _ => None,
        }
    }
}

proof fn lemma_metadatas_none_mono(a: Seq<JsonView>, i: int, j: int)
    requires
        0 <= i <= j,
        metadatas_of_json(a, i) is None,
    ensures
        metadatas_of_json(a, j) is None,
    decreases j - i,
{
    if i < j {
        lemma_metadatas_none_mono(a, i, j - 1);
    }
}

/// The folder list in a JSON document: an array of metadata, the cursor
/// and the more flag, all required.
pub open spec fn folder_list_of_json(v: JsonView) -> Option<FolderListView> {
    match (json_get(v, "entries"@), req_str_field(v, "cursor"@), req_bool_field(v, "has_more"@)) {
        (Some(JsonView::Array(a)), Some(cursor), Some(has_more)) => match metadatas_of_json(
            a,
            a.len() as int,
        ) {
            Some(entries) => Some(FolderListView { entries, cursor, has_more }),
            None => None,
        },
        _ => None,
    }
}

/// The folder list in a JSON text.
pub open spec fn folder_list_of_text(s: Seq<char>) -> Option<FolderListView> {
    match json_parse_of(s) {
        Some(v) => folder_list_of_json(v),
        None => None,
    }
}

impl FolderList {
    /// The folder list in a JSON value, if it holds one.
    pub fn decode(v: &JsonValue) -> (r: Option<FolderList>)
        ensures
            (match r {
                Some(fl) => folder_list_of_json(v@) == Some(fl@),
                None => folder_list_of_json(v@) is None,
            }),
    {
        let arr = match v.get("entries") {
            Some(JsonValue::Array(a)) => a,
            _ => {
                return None;
            },
        };
        let ghost av = json_view(JsonValue::Array(*arr))->Array_0;
        let cursor = match v.get("cursor") {
            Some(JsonValue::Str(s)) => s.clone(),
            _ => {
                return None;
            },
        };
        let has_more = match v.get("has_more") {
            Some(JsonValue::Boolean(b)) => *b,
            _ => {
                return None;
            },
        };
        let mut entries: Vec<Metadata> = Vec::new();
        let mut i: usize = 0;
        while i < arr.len()
            invariant
                i <= arr.len(),
                av.len() == arr.len(),
                json_get(v@, "entries"@) == Some(JsonView::Array(av)),
                forall|j: int| 0 <= j < arr.len() ==> av[j] == json_view(arr[j]),
                metadatas_of_json(av, i as int) == Some(entries.deep_view()),
            decreases arr.len() - i,
        {
            let ghost entries0 = entries.deep_view();
            match Metadata::decode(&arr[i]) {
                Some(m) => {
                    entries.push(m);
                    proof {
                        assert(entries.deep_view() =~= entries0.push(m@));
                    }
                },
                None => {
                    proof {
                        assert(av[i as int] == json_view(arr[i as int]));
                        assert(metadatas_of_json(av, i + 1) is None);
                        lemma_metadatas_none_mono(av, i + 1, av.len() as int);
                    }
                    return None;
                },
            }
            i = i + 1;
        }
        Some(FolderList { entries, cursor, has_more })
    }

    /// The folder list in a JSON text, if it parses and holds one.
    pub fn decode_text(s: &str) -> (r: Option<FolderList>)
        ensures
            (match r {
                Some(fl) => folder_list_of_text(s@) == Some(fl@),
                None => folder_list_of_text(s@) is None,
            }),
    {
        match parse_json(s) {
            Some(v) => FolderList::decode(&v),
            None => None,
        }
    }
}

/// The default folder list: no entries, an empty cursor, nothing more.
pub open spec fn folder_list_default_view() -> FolderListView {
    FolderListView { entries: Seq::empty(), cursor: Seq::empty(), has_more: false }
}

impl Default for FolderList {
    fn default() -> (r: FolderList)
        ensures
            r@ == folder_list_default_view(),
    {
        let r = FolderList { entries: Vec::new(), cursor: String::new(), has_more: false };
        proof {
            assert(r@ =~~= folder_list_default_view());
        }
        r
    }
}

/// What the `create_folder` API call returns.
#[derive(Debug, PartialEq, Clone)]
pub struct NewFolder {
    pub name: String,
    pub path_lower: String,
    pub id: String,
}

/// The mathematical shape of a `NewFolder`.
#[verifier::ext_equal]
pub struct NewFolderView {
    pub name: Seq<char>,
    pub path_lower: Seq<char>,
    pub id: Seq<char>,
}

impl View for NewFolder {
    type V = NewFolderView;

    open spec fn view(&self) -> NewFolderView {
        NewFolderView { name: self.name@, path_lower: self.path_lower@, id: self.id@ }
    }
}

/// The new folder in a JSON document: every member required.
pub open spec fn new_folder_of_json(v: JsonView) -> Option<NewFolderView> {
    match (
        req_str_field(v, "name"@),
        req_str_field(v, "path_lower"@),
        req_str_field(v, "id"@),
    ) {
        (Some(name), Some(path_lower), Some(id)) => Some(
            NewFolderView { name, path_lower, id },
        ),
        _ => None,
    }
}

/// The new folder in a JSON text.
pub open spec fn new_folder_of_text(s: Seq<char>) -> Option<NewFolderView> {
    match json_parse_of(s) {
        Some(v) => new_folder_of_json(v),
        None => None,
    }
}

impl NewFolder {
    /// The new folder in a JSON value, if it holds one.
    pub fn decode(v: &JsonValue) -> (r: Option<NewFolder>)
        ensures
            (match r {
                Some(nf) => new_folder_of_json(v@) == Some(nf@),
                None => new_folder_of_json(v@) is None,
            }),
    {
        let name = match v.get("name") {
            Some(JsonValue::Str(s)) => s.clone(),
            _ => {
                return None;
            },
        };
        let path_lower = match v.get("path_lower") {
            Some(JsonValue::Str(s)) => s.clone(),
            _ => {
                return None;
            },
        };
        let id = match v.get("id") {
            Some(JsonValue::Str(s)) => s.clone(),
            _ => {
                return None;
            },
        };
        Some(NewFolder { name, path_lower, id })
    }

    /// The new folder in a JSON text, if it parses and holds one.
    pub fn decode_text(s: &str) -> (r: Option<NewFolder>)
        ensures
            (match r {
                Some(nf) => new_folder_of_text(s@) == Some(nf@),
                None => new_folder_of_text(s@) is None,
            }),
    {
        match parse_json(s) {
            Some(v) => NewFolder::decode(&v),
            None => None,
        }
    }
}

} // verus!
