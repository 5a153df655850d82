use vstd::prelude::*;

use crate::field::{Content, ExpiresAt, Password, Title};
use crate::short_code::ShortCode;

verus! {

/// A service request to create a clip.
#[derive(Debug)]
pub struct NewClip {
    pub content: Content,
    pub title: Title,
    pub expires_at: ExpiresAt,
    pub password: Password,
}

/// A service request to rewrite a clip.
#[derive(Debug)]
pub struct UpdateClip {
    pub content: Content,
    pub title: Title,
    pub expires_at: ExpiresAt,
    pub password: Password,
    pub short_code: ShortCode,
}

/// A service request to fetch a clip, with whatever password came along.
#[derive(Debug)]
pub struct GetClip {
    pub short_code: ShortCode,
    pub password: Password,
}

impl GetClip {
    /// The request for a bare short code, with no password offered.
    pub fn from_raw(short_code: &str) -> (r: GetClip)
        ensures
            r.short_code@ == short_code@,
            r.password@ is None,
    {
        GetClip { short_code: ShortCode::from_raw(short_code), password: Password::default() }
    }

    /// The same, from an already-built short code.
    pub fn from_short_code(short_code: ShortCode) -> (r: GetClip)
        ensures
            r.short_code@ == short_code@,
            r.password@ is None,
    {
        GetClip { short_code, password: Password::default() }
    }
}

} // verus!
