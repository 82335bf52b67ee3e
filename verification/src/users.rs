//! Accounts and space usage. None of these calls reaches the wire yet:
//! each returns its placeholder answer, except that asking for too many
//! accounts at once is rejected before any call would go out.
use vstd::prelude::*;

use crate::{ApiError, DropboxClient};

verus! {

/// What the server says about any account.
#[derive(Debug, PartialEq, Clone)]
pub struct BasicAccount {
    pub account_id: Option<String>,
    pub name: Option<String>,
    pub is_teammate: Option<bool>,
}

/// What the server says about the caller's own account.
#[derive(Debug, PartialEq, Clone)]
pub struct FullAccount {
    pub account_id: String,
    pub name: String,
    pub email: String,
    pub locale: String,
    pub referral_link: String,
    pub is_paired: bool,
    pub account_type: String,
    pub country: String,
    pub team: Option<String>,
}

/// How much of the account's space is used.
#[derive(Debug, PartialEq, Eq, Structural, Clone, Copy)]
pub struct SpaceUsage {
    pub used: usize,
    pub allocation: usize,
}

// Functions

/// One account by id: not carried out yet, the placeholder answer is
/// empty.
pub fn get_account<T: DropboxClient>(client: &T, account_id: &str) -> (r: Result<
    BasicAccount,
    ApiError,
>)
    ensures
        r matches Ok(a) ==> (a.account_id is None && a.name is None && a.is_teammate is None),
        r is Ok,
{
    Ok(BasicAccount { account_id: None, name: None, is_teammate: None })
}

/// Several accounts at once. More than 300 ids are rejected outright;
/// otherwise the call is not carried out yet and the placeholder answer
/// is empty.
pub fn get_account_batch<T: DropboxClient, U>(client: &T, account_ids: &[U]) -> (r: Result<
    Vec<BasicAccount>,
    ApiError,
>)
    ensures
        account_ids@.len() > 300 <==> r is Err,
        r matches Err(e) ==> e == ApiError::GetAccountBatchError,
        r matches Ok(v) ==> v@.len() == 0,
{
    if account_ids.len() > 300 {
        return Err(ApiError::GetAccountBatchError);
    }
    Ok(Vec::new())
}

/// The caller's own account: not carried out yet, the placeholder answer
/// is empty.
pub fn get_current_account<T: DropboxClient>(client: &T) -> (r: Result<FullAccount, ApiError>)
    ensures
        r matches Ok(a) ==> (a.account_id@ == Seq::<char>::empty() && a.name@ == Seq::<
            char,
        >::empty() && a.email@ == Seq::<char>::empty() && a.locale@ == Seq::<char>::empty()
            && a.referral_link@ == Seq::<char>::empty() && !a.is_paired && a.account_type@ == Seq::<
            char,
        >::empty() && a.country@ == Seq::<char>::empty() && a.team is None),
        r is Ok,
{
    Ok(
        FullAccount {
            account_id: String::new(),
            name: String::new(),
            email: String::new(),
            locale: String::new(),
            referral_link: String::new(),
            is_paired: false,
            account_type: String::new(),
            country: String::new(),
            team: None,
        },
    )
}

/// The account's space usage: not carried out yet, the placeholder
/// answer is nothing used of nothing.
pub fn get_space_usage<T: DropboxClient>(client: &T) -> (r: Result<SpaceUsage, ApiError>)
    ensures
        r matches Ok(u) ==> u.used == 0 && u.allocation == 0,
        r is Ok,
{
    Ok(SpaceUsage { used: 0, allocation: 0 })
}

} // verus!
