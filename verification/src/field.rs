use vstd::prelude::*;
use vstd::string::StrSliceExecFns;

verus! {

/// Why a clip could not be built from raw parts.
#[derive(Debug, PartialEq, Eq)]
pub enum ClipError {
    /// A clip must carry some content.
    EmptyContent,
    /// The string is not a well-formed date.
    InvalidDate(String),
    /// The string is not a well-formed database identifier.
    Id(String),
    /// A persisted view count can never be negative.
    Views(i64),
}

/// The 128-bit value a textual database identifier denotes, when it is
/// well-formed. Which strings parse, and to what, is a function of the
/// characters alone.
pub uninterp spec fn parsed_uuid(s: Seq<char>) -> Option<u128>;

/// Relies on uuid::Uuid::parse_str: accepts the textual identifier forms
/// the crate documents (hyphenated, simple, urn, braced) and yields the
/// 128-bit value.
#[verifier::external_body]
fn uuid_parse(s: &str) -> (r: Option<u128>)
    ensures
        r == parsed_uuid(s@),
{
    match uuid::Uuid::parse_str(s) {
        Ok(u) => Some(u.as_u128()),
        Err(_) => None,
    }
}

/// The canonical text of a 128-bit identifier: a function of the value
/// alone.
pub uninterp spec fn uuid_text(n: u128) -> Seq<char>;

/// Relies on uuid::Uuid::from_u128 and its Display form: the canonical
/// hyphenated lower-case text, 36 characters long.
#[verifier::external_body]
fn uuid_format(n: u128) -> (r: String)
    ensures
        r@ == uuid_text(n),
        r@.len() == 36,
{
    uuid::Uuid::from_u128(n).to_string()
}

/// Relies on uuid::Uuid::new_v4: a fresh random identifier. A random value
/// admits no promise, and none is made.
#[verifier::external_body]
fn uuid_random() -> u128 {
    uuid::Uuid::new_v4().as_u128()
}

/// The Unix timestamp a textual date denotes, when it is a well-formed
/// RFC 3339 date: a function of the characters alone.
pub uninterp spec fn parsed_time(s: Seq<char>) -> Option<i64>;

/// Relies on chrono::DateTime::parse_from_rfc3339 and timestamp: which
/// strings are well-formed RFC 3339 dates and the second each denotes.
#[verifier::external_body]
fn time_parse(s: &str) -> (r: Option<i64>)
    ensures
        r == parsed_time(s@),
{
    match chrono::DateTime::parse_from_rfc3339(s) {
        Ok(t) => Some(t.timestamp()),
        Err(_) => None,
    }
}

/// The database identifier of a clip, as its 128-bit value.
#[derive(Debug, Clone, Copy, PartialEq, Eq, Structural)]
pub struct DbId {
    value: u128,
}

impl View for DbId {
    type V = u128;

    closed spec fn view(&self) -> u128 {
        self.value
    }
}

impl DbId {
    /// A fresh random identifier.
    pub fn new() -> DbId {
        DbId { value: uuid_random() }
    }

    /// The all-zero identifier.
    pub fn nil() -> (r: DbId)
        ensures
            r@ == 0,
    {
        DbId { value: 0 }
    }

    /// Reads an identifier from its text, in any of the documented forms.
    pub fn from_str(raw: &str) -> (r: Result<DbId, ClipError>)
        ensures
            match parsed_uuid(raw@) {
                Some(v) => r matches Ok(d) && d@ == v,
                None => r matches Err(e) && (e matches ClipError::Id(s) && s@ == raw@),
            },
    {
        match uuid_parse(raw) {
            Some(value) => Ok(DbId { value }),
            None => Err(ClipError::Id(raw.to_string())),
        }
    }

    /// The canonical hyphenated text of this identifier.
    pub fn format(&self) -> (r: String)
        ensures
            r@ == uuid_text(self@),
            r@.len() == 36,
    {
        uuid_format(self.value)
    }
}

/// A point in time, as whole seconds since the Unix epoch, in UTC.
#[derive(Debug, Clone, Copy, PartialEq, Eq, Structural)]
pub struct Time {
    stamp: i64,
}

impl View for Time {
    type V = i64;

    closed spec fn view(&self) -> i64 {
        self.stamp
    }
}

impl Time {
    /// The time at this Unix timestamp.
    pub fn from_timestamp(stamp: i64) -> (r: Time)
        ensures
            r@ == stamp,
    {
        Time { stamp }
    }

    /// The Unix timestamp of this time.
    pub fn timestamp(&self) -> (r: i64)
        ensures
            r == self@,
    {
        self.stamp
    }

    /// Reads a time from an RFC 3339 date string.
    pub fn parse(raw: &str) -> (r: Result<Time, ClipError>)
        ensures
            match parsed_time(raw@) {
                Some(t) => r matches Ok(time) && time@ == t,
                None => r matches Err(e) && (e matches ClipError::InvalidDate(s) && s@ == raw@),
            },
    {
        match time_parse(raw) {
            Some(stamp) => Ok(Time { stamp }),
            None => Err(ClipError::InvalidDate(raw.to_string())),
        }
    }
}

/// The database identifier field of a clip.
#[derive(Debug, Clone, Copy, PartialEq, Eq, Structural)]
pub struct Id {
    id: DbId,
}

impl View for Id {
    type V = u128;

    closed spec fn view(&self) -> u128 {
        self.id@
    }
}

impl Id {
    pub fn new(id: DbId) -> (r: Id)
        ensures
            r@ == id@,
    {
        Id { id }
    }

    pub fn into_inner(self) -> (r: DbId)
        ensures
            r@ == self@,
    {
        self.id
    }
}

impl Default for Id {
    /// The nil identifier.
    fn default() -> (r: Id)
        ensures
            r@ == 0,
    {
        Id { id: DbId::nil() }
    }
}

/// When a clip was created.
#[derive(Debug, Clone, Copy, PartialEq, Eq, Structural)]
pub struct CreatedAt {
    time: Time,
}

impl View for CreatedAt {
    type V = i64;

    closed spec fn view(&self) -> i64 {
        self.time@
    }
}

impl CreatedAt {
    pub fn new(time: Time) -> (r: CreatedAt)
        ensures
            r@ == time@,
    {
        CreatedAt { time }
    }

    pub fn into_inner(self) -> (r: Time)
        ensures
            r@ == self@,
    {
        self.time
    }
}

/// When a clip lapses, if it ever does.
#[derive(Debug, Clone, Copy)]
pub struct ExpiresAt {
    time: Option<Time>,
}

impl View for ExpiresAt {
    type V = Option<i64>;

    closed spec fn view(&self) -> Option<i64> {
        match self.time {
            Option::None => None,
            Option::Some(t) => Some(t@),
        }
    }
}

impl ExpiresAt {
    pub fn new(expires_at: Option<Time>) -> (r: ExpiresAt)
        ensures
            r@ == (match expires_at {
                Option::None => None::<i64>,
                Option::Some(t) => Some(t@),
            }),
    {
        ExpiresAt { time: expires_at }
    }

    pub fn into_inner(self) -> (r: Option<Time>)
        ensures
            match r {
                Option::None => self@ is None,
                Option::Some(t) => self@ == Some(t@),
            },
    {
        self.time
    }

    /// Reads an expiry from a form or query string: an empty string means
    /// the clip never lapses, anything else must be a well-formed RFC 3339
    /// date.
    pub fn from_str(raw: &str) -> (r: Result<ExpiresAt, ClipError>)
        ensures
            raw@.len() == 0 ==> (r matches Ok(e) && e@ is None),
            raw@.len() > 0 ==> match parsed_time(raw@) {
                Some(t) => r matches Ok(e) && e@ == Some(t),
                None => r matches Err(e) && (e matches ClipError::InvalidDate(s) && s@ == raw@),
            },
    {
        if raw.unicode_len() == 0 {
            Ok(ExpiresAt { time: None })
        } else {
            match Time::parse(raw) {
                Ok(time) => Ok(ExpiresAt { time: Some(time) }),
                Err(e) => Err(e),
            }
        }
    }
}

impl Default for ExpiresAt {
    /// No expiry.
    fn default() -> (r: ExpiresAt)
        ensures
            r@ is None,
    {
        ExpiresAt { time: None }
    }
}

/// The text of a clip. Never empty: a clip without content is refused.
#[derive(Debug)]
pub struct Content {
    content: String,
}

impl View for Content {
    type V = Seq<char>;

    closed spec fn view(&self) -> Seq<char> {
        self.content@
    }
}

impl Content {
    pub fn new(content: &str) -> (r: Result<Content, ClipError>)
        ensures
            content@.len() == 0 ==> (r matches Err(e) && e is EmptyContent),
            content@.len() > 0 ==> (r matches Ok(c) && c@ == content@),
    {
        if content.unicode_len() == 0 {
            Err(ClipError::EmptyContent)
        } else {
            Ok(Content { content: content.to_string() })
        }
    }

    pub fn into_inner(self) -> (r: String)
        ensures
            r@ == self@,
    {
        self.content
    }
}

impl Clone for Content {
    fn clone(&self) -> (r: Self)
        ensures
            r@ == self@,
    {
        Content { content: self.content.clone() }
    }
}

/// A present, non-empty title normalized from whatever the form carried.
pub open spec fn normalized_title(o: Option<Seq<char>>) -> Option<Seq<char>> {
    match o {
        Option::None => None,
        Option::Some(s) => if s.len() == 0 {
            None
        } else {
            Some(s)
        },
    }
}

/// The optional title of a clip; an empty title counts as none at all.
#[derive(Debug)]
pub struct Title {
    title: Option<String>,
}

impl View for Title {
    type V = Option<Seq<char>>;

    closed spec fn view(&self) -> Option<Seq<char>> {
        match self.title {
            Option::None => None,
            Option::Some(s) => Some(s@),
        }
    }
}

impl Title {
    pub fn new(title: Option<String>) -> (r: Title)
        ensures
            r@ == normalized_title(title.deep_view()),
    {
        match title {
            None => Title { title: None },
            Some(s) => {
                if s.as_str().unicode_len() == 0 {
                    Title { title: None }
                } else {
                    Title { title: Some(s) }
                }
            },
        }
    }

    pub fn into_inner(self) -> (r: Option<String>)
        ensures
            r.deep_view() == self@,
    {
        self.title
    }
}

impl Clone for Title {
    fn clone(&self) -> (r: Self)
        ensures
            r@ == self@,
    {
        match &self.title {
            None => Title { title: None },
            Some(s) => Title { title: Some(s.clone()) },
        }
    }
}

impl Default for Title {
    /// No title.
    fn default() -> (r: Title)
        ensures
            r@ is None,
    {
        Title { title: None }
    }
}

/// A present, non-empty password normalized from whatever the form carried.
pub open spec fn normalized_password(s: Seq<char>) -> Option<Seq<char>> {
    if s.len() == 0 {
        None
    } else {
        Some(s)
    }
}

/// The optional password protecting a clip; an empty password counts as no
/// protection.
#[derive(Debug)]
pub struct Password {
    password: Option<String>,
}

impl View for Password {
    type V = Option<Seq<char>>;

    closed spec fn view(&self) -> Option<Seq<char>> {
        match self.password {
            Option::None => None,
            Option::Some(s) => Some(s@),
        }
    }
}

impl Password {
    pub fn new(password: String) -> (r: Password)
        ensures
            r@ == normalized_password(password@),
    {
        if password.as_str().unicode_len() == 0 {
            Password { password: None }
        } else {
            Password { password: Some(password) }
        }
    }

    pub fn into_inner(self) -> (r: Option<String>)
        ensures
            r.deep_view() == self@,
    {
        self.password
    }

    /// Whether the clip is protected at all.
    pub fn has_password(&self) -> (r: bool)
        ensures
            r <==> self@ is Some,
    {
        matches!(&self.password, Some(_))
    }
}

impl Clone for Password {
    fn clone(&self) -> (r: Self)
        ensures
            r@ == self@,
    {
        match &self.password {
            None => Password { password: None },
            Some(s) => Password { password: Some(s.clone()) },
        }
    }
}

impl Default for Password {
    /// No protection.
    fn default() -> (r: Password)
        ensures
            r@ is None,
    {
        Password { password: None }
    }
}

/// The persisted view count of a clip, as read back from storage.
#[derive(Debug, Clone, Copy, PartialEq, Eq, Structural)]
pub struct Views {
    views: u64,
}

impl View for Views {
    type V = u64;

    closed spec fn view(&self) -> u64 {
        self.views
    }
}

impl Views {
    pub fn new(views: u64) -> (r: Views)
        ensures
            r@ == views,
    {
        Views { views }
    }

    pub fn into_inner(self) -> (r: u64)
        ensures
            r == self@,
    {
        self.views
    }
}

} // verus!
