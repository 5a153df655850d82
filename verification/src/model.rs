use vstd::prelude::*;

use crate::ask;
use crate::field::{uuid_text, DbId, Time};
use crate::short_code::ShortCode;

verus! {

/// A raw clip row, exactly as the storage layer hands it over: strings and
/// timestamps, nothing validated yet.
#[derive(Debug)]
pub struct Clip {
    pub id: String,
    pub short_code: String,
    pub content: String,
    pub title: Option<String>,
    pub created_at: i64,
    pub expires_at: Option<i64>,
    pub password: Option<String>,
    pub views: i64,
}

/// The raw arguments of the query that fetches one clip.
#[derive(Debug)]
pub struct GetClip {
    pub short_code: String,
}

impl GetClip {
    pub fn from_ask(req: ask::GetClip) -> (r: GetClip)
        ensures
            r.short_code@ == req.short_code@,
    {
        GetClip { short_code: req.short_code.into_inner() }
    }

    pub fn from_short_code(short_code: ShortCode) -> (r: GetClip)
        ensures
            r.short_code@ == short_code@,
    {
        GetClip { short_code: short_code.into_inner() }
    }

    pub fn from_raw(short_code: String) -> (r: GetClip)
        ensures
            r.short_code@ == short_code@,
    {
        GetClip { short_code }
    }
}

/// The raw row for inserting a new clip; a fresh clip starts at zero views.
#[derive(Debug)]
pub struct NewClip {
    pub id: String,
    pub short_code: String,
    pub content: String,
    pub title: Option<String>,
    pub created_at: i64,
    pub expires_at: Option<i64>,
    pub password: Option<String>,
}

impl NewClip {
    /// Builds the insert row from a service request. The fresh identifier,
    /// the generated short code and the creation instant depend on chance
    /// and the clock, so the caller hands them in.
    pub fn from_ask(req: ask::NewClip, id: DbId, short_code: ShortCode, created_at: Time) -> (r:
        NewClip)
        ensures
            r.id@ == uuid_text(id@),
            r.short_code@ == short_code@,
            r.content@ == req.content@,
            r.title.deep_view() == req.title@,
            r.created_at == created_at@,
            r.expires_at == req.expires_at@,
            r.password.deep_view() == req.password@,
    {
        NewClip {
            id: id.format(),
            short_code: short_code.into_inner(),
            content: req.content.into_inner(),
            title: req.title.into_inner(),
            created_at: created_at.timestamp(),
            expires_at: match req.expires_at.into_inner() {
                None => None,
                Some(t) => Some(t.timestamp()),
            },
            password: req.password.into_inner(),
        }
    }
}

/// The raw row for rewriting an existing clip.
#[derive(Debug)]
pub struct UpdateClip {
    pub short_code: String,
    pub content: String,
    pub title: Option<String>,
    pub expires_at: Option<i64>,
    pub password: Option<String>,
}

impl UpdateClip {
    pub fn from_ask(req: ask::UpdateClip) -> (r: UpdateClip)
        ensures
            r.short_code@ == req.short_code@,
            r.content@ == req.content@,
            r.title.deep_view() == req.title@,
            r.expires_at == req.expires_at@,
            r.password.deep_view() == req.password@,
    {
        UpdateClip {
            short_code: req.short_code.into_inner(),
            content: req.content.into_inner(),
            title: req.title.into_inner(),
            expires_at: match req.expires_at.into_inner() {
                None => None,
                Some(t) => Some(t.timestamp()),
            },
            password: req.password.into_inner(),
        }
    }
}

/// What revoking an api key came to.
#[derive(Debug, PartialEq, Eq, Structural)]
pub enum RevocationStatus {
    Revoked,
    NotFound,
}

/// The decision step of api-key revocation, over how many rows the delete
/// touched: some row means the key existed and is now gone.
pub fn revocation_status(rows_affected: u64) -> (r: RevocationStatus)
    ensures
        r is Revoked <==> rows_affected > 0,
{
    if rows_affected == 0 {
        RevocationStatus::NotFound
    } else {
        RevocationStatus::Revoked
    }
}

/// The decision step of api-key validation, over the count the lookup
/// returned: the key is valid exactly when it was found at all.
pub fn api_key_found(count: u32) -> (r: bool)
    ensures
        r <==> count > 0,
{
    count > 0
}

} // verus!
