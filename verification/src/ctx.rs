use vstd::prelude::*;

use crate::clip::Clip;
use crate::short_code::ShortCode;

verus! {

/// What a renderable page context must say about itself: its title, the
/// template that draws it, and the layout it sits in.
pub trait PageContext {
    fn title(&self) -> &'static str;

    fn template_path(&self) -> &'static str;

    fn parent(&self) -> &'static str;
}

/// The landing page.
#[derive(Debug)]
pub struct Home {}

impl PageContext for Home {
    fn title(&self) -> &'static str {
        "Share Your Clipboard"
    }

    fn template_path(&self) -> &'static str {
        "home"
    }

    fn parent(&self) -> &'static str {
        "base"
    }
}

/// The page showing one clip.
#[derive(Debug)]
pub struct ViewClip {
    pub clip: Clip,
}

impl ViewClip {
    pub fn new(clip: Clip) -> (r: ViewClip)
        ensures
            r.clip == clip,
    {
        ViewClip { clip }
    }
}

impl PageContext for ViewClip {
    fn title(&self) -> &'static str {
        "View Clip"
    }

    fn template_path(&self) -> &'static str {
        "clip"
    }

    fn parent(&self) -> &'static str {
        "base"
    }
}

/// The page asking for a clip's password.
#[derive(Debug)]
pub struct PasswordRequired {
    short_code: ShortCode,
}

impl PasswordRequired {
    pub fn new(short_code: ShortCode) -> (r: PasswordRequired)
        ensures
            r.code_view() == short_code@,
    {
        PasswordRequired { short_code }
    }

    /// The short code whose clip is being asked for.
    pub closed spec fn code_view(&self) -> Seq<char> {
        self.short_code@
    }

    pub fn short_code(&self) -> (r: &ShortCode)
        ensures
            r@ == self.code_view(),
    {
        &self.short_code
    }
}

impl PageContext for PasswordRequired {
    fn title(&self) -> &'static str {
        "Password Required"
    }

    fn template_path(&self) -> &'static str {
        "clip_need_password"
    }

    fn parent(&self) -> &'static str {
        "base"
    }
}

} // verus!
