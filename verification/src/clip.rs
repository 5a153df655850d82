use vstd::prelude::*;

use crate::field::{
    normalized_password, normalized_title, parsed_uuid, ClipError, Content, CreatedAt, DbId,
    ExpiresAt, Id, Password, Time, Title, Views,
};
use crate::model;
use crate::short_code::ShortCode;

verus! {

/// A clip of the domain: every field validated and carried in its own type.
#[derive(Debug)]
pub struct Clip {
    pub id: Id,
    pub short_code: ShortCode,
    pub content: Content,
    pub title: Title,
    pub created_at: CreatedAt,
    pub expires_at: ExpiresAt,
    pub password: Password,
    pub views: Views,
}

impl Clip {
    /// Builds a validated clip from a raw storage row. The identifier must
    /// parse, the content must not be empty and the persisted view count
    /// must not be negative; the first offending field, in that order,
    /// decides the error.
    pub fn try_from_model(clip: model::Clip) -> (r: Result<Clip, ClipError>)
        ensures
            match r {
                Ok(c) => {
                    &&& parsed_uuid(clip.id@) == Some(c.id@)
                    &&& clip.content@.len() > 0
                    &&& clip.views >= 0
                    &&& c.short_code@ == clip.short_code@
                    &&& c.content@ == clip.content@
                    &&& c.title@ == normalized_title(clip.title.deep_view())
                    &&& c.created_at@ == clip.created_at
                    &&& c.expires_at@ == clip.expires_at
                    &&& c.password@ == normalized_password(
                        match clip.password {
                            Option::None => Seq::<char>::empty(),
                            Option::Some(p) => p@,
                        },
                    )
                    &&& c.views@ == clip.views as u64
                },
                Err(e) => match e {
                    ClipError::Id(s) => parsed_uuid(clip.id@) is None && s@ == clip.id@,
                    ClipError::EmptyContent => parsed_uuid(clip.id@) is Some && clip.content@.len()
                        == 0,
                    ClipError::Views(v) => parsed_uuid(clip.id@) is Some && clip.content@.len() > 0
                        && v == clip.views && clip.views < 0,
                    _ => false,
                },
            },
    {
        let db_id = match DbId::from_str(clip.id.as_str()) {
            Ok(i) => i,
            Err(e) => {
                return Err(e);
            },
        };
        let content = match Content::new(clip.content.as_str()) {
            Ok(c) => c,
            Err(e) => {
                return Err(e);
            },
        };
        if clip.views < 0 {
            return Err(ClipError::Views(clip.views));
        }
        Ok(
            Clip {
                id: Id::new(db_id),
                short_code: ShortCode::new(clip.short_code),
                content,
                title: Title::new(clip.title),
                created_at: CreatedAt::new(Time::from_timestamp(clip.created_at)),
                expires_at: ExpiresAt::new(
                    match clip.expires_at {
                        None => None,
                        Some(t) => Some(Time::from_timestamp(t)),
                    },
                ),
                password: Password::new(
                    match clip.password {
                        None => String::new(),
                        Some(p) => p,
                    },
                ),
                views: Views::new(clip.views as u64),
            },
        )
    }
}

} // verus!
