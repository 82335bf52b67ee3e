//! Sharing folders and links. None of these calls reaches the wire yet:
//! each returns its placeholder answer, and the contracts say exactly
//! that.
use vstd::prelude::*;

use crate::structs::{folder_list_default_view, metadata_default_view, FolderList, Metadata};
use crate::{ApiError, DropboxClient};

verus! {

/// Why an asynchronous sharing job failed.
#[derive(Debug, PartialEq, Clone)]
pub enum JobError {
    AccessError(String),
    MemberError(String),
    Other(String),
}

/// Why a path cannot be shared.
#[derive(Debug, PartialEq, Clone)]
pub enum SharePathError {
    AlreadyShared,
    ContainsSharedFolder,
    InsideAppFolder,
    InsideSharedFolder,
    InvalidPath,
    IsAppFolder,
    IsFile,
    Other(String),
}

/// Why sharing a folder failed.
#[derive(Debug, PartialEq, Clone)]
pub enum ShareFolderError {
    EmailUnverified,
    BadPath(SharePathError),
    TeamPolicyDisallowsMemberPolicy,
}

/// Optional arguments when adding members to a folder.
#[derive(Debug, PartialEq, Clone)]
pub struct AddFolderMemberOptions {
    pub quiet: bool,
    pub custom_message: Option<String>,
}

impl Default for AddFolderMemberOptions {
    /// Not quiet, with no custom message.
    fn default() -> (r: AddFolderMemberOptions)
        ensures
            !r.quiet,
            r.custom_message is None,
    {
        AddFolderMemberOptions { quiet: false, custom_message: None }
    }
}

/// Where an asynchronous sharing job stands.
#[derive(Debug, PartialEq, Clone)]
pub enum JobStatus {
    Complete,
    Failed(JobError),
}

/// Where an asynchronous share-folder job stands.
#[derive(Debug, PartialEq, Clone)]
pub enum ShareFolderJobStatus {
    Complete(Metadata),
    Failed(ShareFolderError),
}

/// Optional arguments when creating a shared link.
#[derive(Debug, PartialEq, Clone)]
pub struct CreateSharedLinkOptions {
    pub short_url: bool,
    pub pending_upload: Option<PendingUploadMode>,
}

impl Default for CreateSharedLinkOptions {
    /// A long URL for something that is already there.
    fn default() -> (r: CreateSharedLinkOptions)
        ensures
            !r.short_url,
            r.pending_upload is None,
    {
        CreateSharedLinkOptions { short_url: false, pending_upload: None }
    }
}

/// What a pending upload behind a shared link will become.
#[derive(Debug, PartialEq, Eq, Structural, Clone, Copy)]
pub enum PendingUploadMode {
    File,
    Folder,
}

/// Who has access to a shared folder.
#[derive(Debug, PartialEq, Clone)]
pub struct SharedFolderMembers {
    pub users: Vec<UserMembershipInfo>,
    pub groups: Vec<GroupMembershipInfo>,
    pub invitees: Vec<InviteeMembershipInfo>,
    pub cursor: String,
}

/// One user with access to a shared folder.
#[derive(Debug, PartialEq, Clone)]
pub struct UserMembershipInfo {
    pub access_type: AccessLevel,
    pub user: UserInfo,
}

/// One group with access to a shared folder.
#[derive(Debug, PartialEq, Clone)]
pub struct GroupMembershipInfo {
    pub access_type: AccessLevel,
    pub group: GroupInfo,
}

/// One invitee to a shared folder.
#[derive(Debug, PartialEq, Clone)]
pub struct InviteeMembershipInfo {
    pub access_type: AccessLevel,
    pub invitee: InviteeInfo,
}

/// How much a member may do with a shared folder.
#[derive(Debug, PartialEq, Clone)]
pub enum AccessLevel {
    Owner,
    Editor,
    Viewer,
    Other(String),
}

/// A user as the sharing calls see one.
#[derive(Debug, PartialEq, Clone)]
pub struct UserInfo {
    pub account_id: String,
    pub same_team: bool,
    pub team_member_id: String,
}

/// A group as the sharing calls see one.
#[derive(Debug, PartialEq, Clone)]
pub struct GroupInfo {
    pub group_name: String,
    pub group_id: String,
    pub member_count: usize,
    pub same_team: bool,
    pub group_external_id: String,
}

/// How an invitee was named.
#[derive(Debug, PartialEq, Clone)]
pub enum InviteeInfo {
    Email(String),
    Other(String),
}

/// How a member is named when one is added or changed.
#[derive(Debug, PartialEq, Clone)]
pub enum MemberSelector {
    DropboxID(String),
    Email(String),
    Other(String),
}

/// Optional arguments when sharing a folder.
#[derive(Debug, PartialEq, Clone)]
pub struct ShareFolderOptions {
    pub member_policy: MemberPolicy,
    pub acl_update_policy: AclUpdatePolicy,
    pub shared_link_policy: SharedLinkPolicy,
    pub force_async: bool,
}

impl Default for ShareFolderOptions {
    /// Anyone may join and follow links, only the owner edits the list,
    /// and the call may finish synchronously.
    fn default() -> (r: ShareFolderOptions)
        ensures
            r.member_policy == MemberPolicy::Anyone,
            r.acl_update_policy == AclUpdatePolicy::Owner,
            r.shared_link_policy == SharedLinkPolicy::Anyone,
            !r.force_async,
    {
        ShareFolderOptions {
            member_policy: MemberPolicy::Anyone,
            acl_update_policy: AclUpdatePolicy::Owner,
            shared_link_policy: SharedLinkPolicy::Anyone,
            force_async: false,
        }
    }
}

/// Who may become a member of a shared folder.
#[derive(Debug, PartialEq, Clone)]
pub enum MemberPolicy {
    Team,
    Anyone,
    Other(String),
}

/// Who may change a shared folder's member list.
#[derive(Debug, PartialEq, Clone)]
pub enum AclUpdatePolicy {
    Owner,
    Editors,
    Other(String),
}

/// Who may follow a shared folder's links.
#[derive(Debug, PartialEq, Clone)]
pub enum SharedLinkPolicy {
    Anyone,
    Members,
    Other(String),
}

/// How sharing a folder came back: done, with the folder's metadata.
#[derive(Debug, PartialEq, Clone)]
pub enum ShareFolderLaunch {
    Complete(Metadata),
}

/// Optional arguments when changing a shared folder's policies.
#[derive(Debug, PartialEq, Clone)]
pub struct UpdateFolderPolicyOptions {
    pub member_policy: Option<MemberPolicy>,
    pub acl_update_policy: Option<AclUpdatePolicy>,
    pub shared_link_policy: Option<SharedLinkPolicy>,
}

impl Default for UpdateFolderPolicyOptions {
    /// Change nothing.
    fn default() -> (r: UpdateFolderPolicyOptions)
        ensures
            r.member_policy is None,
            r.acl_update_policy is None,
            r.shared_link_policy is None,
    {
        UpdateFolderPolicyOptions {
            member_policy: None,
            acl_update_policy: None,
            shared_link_policy: None,
        }
    }
}

// Functions

/// Add members to a shared folder, with the default options.
pub fn add_folder_member<T: DropboxClient, U>(
    client: &T,
    shared_folder_id: &str,
    members: &[U],
) -> (r: Result<(), ApiError>)
    ensures
        r is Ok,
{
    add_folder_member_with_options(client, shared_folder_id, members, AddFolderMemberOptions::default())
}

/// Add members to a shared folder: not carried out yet, the placeholder
/// answer is silence.
pub fn add_folder_member_with_options<T: DropboxClient, U>(
    client: &T,
    shared_folder_id: &str,
    members: &[U],
    options: AddFolderMemberOptions,
) -> (r: Result<(), ApiError>)
    ensures
        r is Ok,
{
    Ok(())
}

/// Where an asynchronous job stands: not carried out yet, the
/// placeholder answer says it finished.
pub fn check_job_status<T: DropboxClient>(client: &T, async_job_id: &str) -> (r: Result<
    JobStatus,
    ApiError,
>)
    ensures
        r == Ok::<JobStatus, ApiError>(JobStatus::Complete),
{
    Ok(JobStatus::Complete)
}

/// Where an asynchronous share-folder job stands: not carried out yet,
/// the placeholder answer says it finished with the default metadata.
pub fn check_share_job_status<T: DropboxClient>(client: &T, async_job_id: &str) -> (r: Result<
    ShareFolderJobStatus,
    ApiError,
>)
    ensures
        r matches Ok(ShareFolderJobStatus::Complete(m)) && m@ == metadata_default_view(),
{
    Ok(ShareFolderJobStatus::Complete(Metadata::default()))
}

/// Create a shared link, with the default options.
pub fn create_shared_link<T: DropboxClient>(client: &T, path: &str) -> (r: Result<
    Metadata,
    ApiError,
>)
    ensures
        r matches Ok(m) ==> m@ == metadata_default_view(),
        r is Ok,
{
    create_shared_link_with_options(client, path, CreateSharedLinkOptions::default())
}

/// Create a shared link: not carried out yet, the placeholder answer is
/// the default metadata.
pub fn create_shared_link_with_options<T: DropboxClient>(
    client: &T,
    path: &str,
    options: CreateSharedLinkOptions,
) -> (r: Result<Metadata, ApiError>)
    ensures
        r matches Ok(m) ==> m@ == metadata_default_view(),
        r is Ok,
{
    Ok(Metadata::default())
}

/// Metadata of a shared folder: not carried out yet, the placeholder
/// answer is the default metadata.
pub fn get_folder_metadata<T: DropboxClient>(client: &T, shared_folder_id: &str) -> (r: Result<
    Metadata,
    ApiError,
>)
    ensures
        r matches Ok(m) ==> m@ == metadata_default_view(),
        r is Ok,
{
    Ok(Metadata::default())
}

/// The shared links under a path: not carried out yet, the placeholder
/// answer is none.
pub fn get_shared_links<T: DropboxClient>(client: &T, path: Option<&str>) -> (r: Result<
    Vec<Metadata>,
    ApiError,
>)
    ensures
        r matches Ok(v) ==> v@.len() == 0,
        r is Ok,
{
    Ok(Vec::new())
}

/// The members of a shared folder: not carried out yet, the placeholder
/// answer is nobody.
pub fn list_folder_members<T: DropboxClient>(client: &T, shared_folder_id: &str) -> (r: Result<
    SharedFolderMembers,
    ApiError,
>)
    ensures
        r matches Ok(m) ==> (m.users@.len() == 0 && m.groups@.len() == 0 && m.invitees@.len() == 0
            && m.cursor@ == Seq::<char>::empty()),
        r is Ok,
{
    Ok(
        SharedFolderMembers {
            users: Vec::new(),
            groups: Vec::new(),
            invitees: Vec::new(),
            cursor: String::new(),
        },
    )
}

/// Continue listing the members of a shared folder: not carried out yet,
/// the placeholder answer is nobody.
pub fn list_folder_members_continue<T: DropboxClient>(client: &T, cursor: &str) -> (r: Result<
    SharedFolderMembers,
    ApiError,
>)
    ensures
        r matches Ok(m) ==> (m.users@.len() == 0 && m.groups@.len() == 0 && m.invitees@.len() == 0
            && m.cursor@ == Seq::<char>::empty()),
        r is Ok,
{
    Ok(
        SharedFolderMembers {
            users: Vec::new(),
            groups: Vec::new(),
            invitees: Vec::new(),
            cursor: String::new(),
        },
    )
}

/// The folders shared with this account: not carried out yet, the
/// placeholder answer is the empty listing.
pub fn list_folders<T: DropboxClient>(client: &T) -> (r: Result<FolderList, ApiError>)
    ensures
        r matches Ok(fl) ==> fl@ == folder_list_default_view(),
        r is Ok,
{
    Ok(FolderList::default())
}

/// Continue listing shared folders: not carried out yet, the placeholder
/// answer is the empty listing.
pub fn list_folders_continue<T: DropboxClient>(client: &T, cursor: &str) -> (r: Result<
    FolderList,
    ApiError,
>)
    ensures
        r matches Ok(fl) ==> fl@ == folder_list_default_view(),
        r is Ok,
{
    Ok(FolderList::default())
}

/// Mount a shared folder: not carried out yet, the placeholder answer is
/// the default metadata.
pub fn mount_folder<T: DropboxClient>(client: &T, shared_folder_id: &str) -> (r: Result<
    Metadata,
    ApiError,
>)
    ensures
        r matches Ok(m) ==> m@ == metadata_default_view(),
        r is Ok,
{
    Ok(Metadata::default())
}

/// Give up membership of a shared folder: not carried out yet, the
/// placeholder answer is silence.
pub fn relinquish_folder_membership<T: DropboxClient>(client: &T, shared_folder_id: &str) -> (r:
    Result<(), ApiError>)
    ensures
        r is Ok,
{
    Ok(())
}

/// Remove a member from a shared folder: not carried out yet, the
/// placeholder answer is silence.
pub fn remove_folder_member<T: DropboxClient>(
    client: &T,
    shared_folder_id: &str,
    member: MemberSelector,
    leave_a_copy: bool,
) -> (r: Result<(), ApiError>)
    ensures
        r is Ok,
{
    Ok(())
}

/// Revoke a shared link: not carried out yet, the placeholder answer is
/// silence.
pub fn revoke_shared_link<T: DropboxClient>(client: &T, url: &str) -> (r: Result<(), ApiError>)
    ensures
        r is Ok,
{
    Ok(())
}

/// Share a folder, with the default options.
pub fn share_folder<T: DropboxClient>(client: &T, path: &str) -> (r: Result<
    ShareFolderLaunch,
    ApiError,
>)
    ensures
        r matches Ok(ShareFolderLaunch::Complete(m)) && m@ == metadata_default_view(),
{
    share_folder_with_options(client, path, ShareFolderOptions::default())
}

/// Share a folder: not carried out yet, the placeholder answer says it
/// finished with the default metadata.
pub fn share_folder_with_options<T: DropboxClient>(
    client: &T,
    path: &str,
    options: ShareFolderOptions,
) -> (r: Result<ShareFolderLaunch, ApiError>)
    ensures
        r matches Ok(ShareFolderLaunch::Complete(m)) && m@ == metadata_default_view(),
{
    Ok(ShareFolderLaunch::Complete(Metadata::default()))
}

/// Pass a shared folder to another owner: not carried out yet, the
/// placeholder answer is silence.
pub fn transfer_folder<T: DropboxClient>(
    client: &T,
    shared_folder_id: &str,
    to_dropbox_id: &str,
) -> (r: Result<(), ApiError>)
    ensures
        r is Ok,
{
    Ok(())
}

/// Unmount a shared folder: not carried out yet, the placeholder answer
/// is silence.
pub fn unmount_folder<T: DropboxClient>(client: &T, shared_folder_id: &str) -> (r: Result<
    (),
    ApiError,
>)
    ensures
        r is Ok,
{
    Ok(())
}

/// Stop sharing a folder: not carried out yet, the placeholder answer is
/// silence.
pub fn unshare_folder<T: DropboxClient>(client: &T, shared_folder_id: &str, leave_a_copy: bool) -> (
    r: Result<(), ApiError>)
    ensures
        r is Ok,
{
    Ok(())
}

/// Change a member's access: not carried out yet, the placeholder answer
/// is silence.
pub fn update_folder_member<T: DropboxClient>(
    client: &T,
    shared_folder_id: &str,
    member: MemberSelector,
    access_level: AccessLevel,
) -> (r: Result<(), ApiError>)
    ensures
        r is Ok,
{
    Ok(())
}

/// Change a shared folder's policies, with the default options.
pub fn update_folder_policy<T: DropboxClient>(client: &T, shared_folder_id: &str) -> (r: Result<
    Metadata,
    ApiError,
>)
    ensures
        r matches Ok(m) ==> m@ == metadata_default_view(),
        r is Ok,
{
    update_folder_policy_with_options(client, shared_folder_id, UpdateFolderPolicyOptions::default())
}

/// Change a shared folder's policies: not carried out yet, the
/// placeholder answer is the default metadata.
pub fn update_folder_policy_with_options<T: DropboxClient>(
    client: &T,
    shared_folder_id: &str,
    options: UpdateFolderPolicyOptions,
) -> (r: Result<Metadata, ApiError>)
    ensures
        r matches Ok(m) ==> m@ == metadata_default_view(),
        r is Ok,
{
    Ok(Metadata::default())
}

} // verus!
