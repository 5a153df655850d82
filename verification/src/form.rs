use vstd::prelude::*;

use crate::field::{Content, ExpiresAt, Password, Title};

verus! {

/// What the new-clip form carries once its fields are validated.
#[derive(Debug)]
pub struct NewClip {
    pub content: Content,
    pub title: Title,
    pub expires_at: ExpiresAt,
    pub password: Password,
}

/// What the password form of a protected clip carries.
#[derive(Debug)]
pub struct GetPasswordProtectedClip {
    pub password: Password,
}

} // verus!
