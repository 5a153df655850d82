use clipshare::ask;
use clipshare::ctx::{Home, PageContext, PasswordRequired, ViewClip};
use clipshare::field::{Content, DbId, ExpiresAt, Id, Password, Time, Title, Views};
use clipshare::model;
use clipshare::{Clip, ClipError, ShortCode};

#[test]
fn expires_at_parses_rfc3339() {
    let expires = ExpiresAt::from_str("2024-01-01T00:00:00Z").unwrap();
    let time = expires.into_inner().unwrap();
    assert_eq!(time.timestamp(), 1704067200);
}

#[test]
fn expires_at_empty_means_never() {
    let expires = ExpiresAt::from_str("").unwrap();
    assert!(expires.into_inner().is_none());
}

#[test]
fn expires_at_rejects_garbage() {
    match ExpiresAt::from_str("not-a-date") {
        Err(ClipError::InvalidDate(raw)) => assert_eq!(raw, "not-a-date"),
        other => panic!("expected an invalid-date error, got {:?}", other),
    }
}

#[test]
fn db_id_parses_and_formats() {
    let text = "67e55044-10b1-426f-9247-bb680e5fe0c8";
    let id = DbId::from_str(text).unwrap();
    assert_eq!(id.format(), text);

    let nil = DbId::nil();
    assert_eq!(nil.format(), "00000000-0000-0000-0000-000000000000");
}

#[test]
fn db_id_rejects_garbage() {
    match DbId::from_str("no-uuid-here") {
        Err(ClipError::Id(raw)) => assert_eq!(raw, "no-uuid-here"),
        other => panic!("expected an id error, got {:?}", other),
    }
}

#[test]
fn db_id_new_is_parseable() {
    let id = DbId::new();
    let reread = DbId::from_str(id.format().as_str()).unwrap();
    assert_eq!(reread, id);
}

#[test]
fn content_requires_text() {
    assert!(matches!(Content::new(""), Err(ClipError::EmptyContent)));
    let content = Content::new("hello there").unwrap();
    assert_eq!(content.into_inner(), "hello there");
}

#[test]
fn title_normalizes_empty() {
    assert!(Title::new(None).into_inner().is_none());
    assert!(Title::new(Some(String::new())).into_inner().is_none());
    assert_eq!(
        Title::new(Some("a title".to_string())).into_inner(),
        Some("a title".to_string())
    );
}

#[test]
fn password_normalizes_empty() {
    assert!(Password::new(String::new()).into_inner().is_none());
    assert!(!Password::default().has_password());
    let p = Password::new("secret".to_string());
    assert!(p.has_password());
    assert_eq!(p.into_inner(), Some("secret".to_string()));
}

#[test]
fn time_round_trips_timestamps() {
    let t = Time::from_timestamp(1234567890);
    assert_eq!(t.timestamp(), 1234567890);
    let parsed = Time::parse("2009-02-13T23:31:30Z").unwrap();
    assert_eq!(parsed.timestamp(), 1234567890);
}

fn sample_row() -> model::Clip {
    model::Clip {
        id: "67e55044-10b1-426f-9247-bb680e5fe0c8".to_string(),
        short_code: "abc123".to_string(),
        content: "content for clip 'abc123'".to_string(),
        title: Some(String::new()),
        created_at: 1700000000,
        expires_at: Some(1800000000),
        password: None,
        views: 7,
    }
}

#[test]
fn clip_from_model_validates() {
    let clip = Clip::try_from_model(sample_row()).unwrap();
    assert_eq!(clip.short_code.as_str(), "abc123");
    assert_eq!(clip.content.into_inner(), "content for clip 'abc123'");
    assert!(clip.title.into_inner().is_none());
    assert_eq!(clip.created_at.into_inner().timestamp(), 1700000000);
    assert_eq!(
        clip.expires_at.into_inner().map(|t| t.timestamp()),
        Some(1800000000)
    );
    assert!(clip.password.into_inner().is_none());
    assert_eq!(clip.views.into_inner(), 7);
    assert_eq!(
        clip.id.into_inner().format(),
        "67e55044-10b1-426f-9247-bb680e5fe0c8"
    );
}

#[test]
fn clip_from_model_rejects_bad_id() {
    let mut row = sample_row();
    row.id = "broken".to_string();
    match Clip::try_from_model(row) {
        Err(ClipError::Id(raw)) => assert_eq!(raw, "broken"),
        other => panic!("expected an id error, got {:?}", other),
    }
}

#[test]
fn clip_from_model_rejects_empty_content() {
    let mut row = sample_row();
    row.content = String::new();
    assert!(matches!(
        Clip::try_from_model(row),
        Err(ClipError::EmptyContent)
    ));
}

#[test]
fn clip_from_model_rejects_negative_views() {
    let mut row = sample_row();
    row.views = -1;
    match Clip::try_from_model(row) {
        Err(ClipError::Views(v)) => assert_eq!(v, -1),
        other => panic!("expected a views error, got {:?}", other),
    }
}

#[test]
fn ask_get_clip_from_raw() {
    let req = ask::GetClip::from_raw("abc123");
    assert_eq!(req.short_code.as_str(), "abc123");
    assert!(req.password.into_inner().is_none());
}

#[test]
fn model_get_clip_conversions() {
    let req = ask::GetClip::from_raw("abc123");
    assert_eq!(model::GetClip::from_ask(req).short_code, "abc123");
    assert_eq!(
        model::GetClip::from_short_code(ShortCode::from_raw("zz9")).short_code,
        "zz9"
    );
}

#[test]
fn model_new_clip_from_ask() {
    let req = ask::NewClip {
        content: Content::new("some text").unwrap(),
        title: Title::new(Some("a title".to_string())),
        expires_at: ExpiresAt::from_str("2024-01-01T00:00:00Z").unwrap(),
        password: Password::default(),
    };
    let row = model::NewClip::from_ask(
        req,
        DbId::nil(),
        ShortCode::from_raw("abc123"),
        Time::from_timestamp(1700000000),
    );
    assert_eq!(row.id, "00000000-0000-0000-0000-000000000000");
    assert_eq!(row.short_code, "abc123");
    assert_eq!(row.content, "some text");
    assert_eq!(row.title, Some("a title".to_string()));
    assert_eq!(row.created_at, 1700000000);
    assert_eq!(row.expires_at, Some(1704067200));
    assert_eq!(row.password, None);
}

#[test]
fn model_update_clip_from_ask() {
    let req = ask::UpdateClip {
        content: Content::new("newer text").unwrap(),
        title: Title::new(None),
        expires_at: ExpiresAt::default(),
        password: Password::new("secret".to_string()),
        short_code: ShortCode::from_raw("abc123"),
    };
    let row = model::UpdateClip::from_ask(req);
    assert_eq!(row.short_code, "abc123");
    assert_eq!(row.content, "newer text");
    assert_eq!(row.title, None);
    assert_eq!(row.expires_at, None);
    assert_eq!(row.password, Some("secret".to_string()));
}

#[test]
fn revocation_and_api_key_decisions() {
    assert_eq!(
        clipshare::model::revocation_status(0),
        clipshare::model::RevocationStatus::NotFound
    );
    assert_eq!(
        clipshare::model::revocation_status(3),
        clipshare::model::RevocationStatus::Revoked
    );
    assert!(!clipshare::model::api_key_found(0));
    assert!(clipshare::model::api_key_found(2));
}

#[test]
fn id_defaults_to_nil() {
    let id = Id::default();
    assert_eq!(id.into_inner(), DbId::nil());
    assert_eq!(Views::new(9).into_inner(), 9);
}

#[test]
fn page_contexts_name_their_templates() {
    let home = Home {};
    assert_eq!(home.title(), "Share Your Clipboard");
    assert_eq!(home.template_path(), "home");
    assert_eq!(home.parent(), "base");

    let clip = Clip::try_from_model(sample_row()).unwrap();
    let page = ViewClip::new(clip);
    assert_eq!(page.title(), "View Clip");
    assert_eq!(page.template_path(), "clip");
    assert_eq!(page.parent(), "base");

    let page = PasswordRequired::new(ShortCode::from_raw("abc123"));
    assert_eq!(page.short_code().as_str(), "abc123");
    assert_eq!(page.title(), "Password Required");
    assert_eq!(page.template_path(), "clip_need_password");
    assert_eq!(page.parent(), "base");
}
