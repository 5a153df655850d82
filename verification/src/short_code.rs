use vstd::prelude::*;

verus! {

/// The short identifier naming a clip: the key under which view counts are
/// aggregated. Equality is by value.
#[derive(Debug)]
pub struct ShortCode {
    code: String,
}

impl View for ShortCode {
    type V = Seq<char>;

    closed spec fn view(&self) -> Seq<char> {
        self.code@
    }
}

impl ShortCode {
    pub fn new(code: String) -> (r: ShortCode)
        ensures
            r@ == code@,
    {
        ShortCode { code }
    }

    pub fn from_raw(code: &str) -> (r: ShortCode)
        ensures
            r@ == code@,
    {
        ShortCode { code: code.to_string() }
    }

    pub fn as_str(&self) -> (r: &str)
        ensures
            r@ == self@,
    {
        self.code.as_str()
    }

    pub fn into_inner(self) -> (r: String)
        ensures
            r@ == self@,
    {
        self.code
    }
}

impl Clone for ShortCode {
    fn clone(&self) -> (r: Self)
        ensures
            r@ == self@,
    {
        ShortCode { code: self.code.clone() }
    }
}

impl PartialEq for ShortCode {
    fn eq(&self, other: &Self) -> (r: bool) {
        self.code == other.code
    }
}

impl vstd::std_specs::cmp::PartialEqSpecImpl for ShortCode {
    open spec fn obeys_eq_spec() -> bool {
        true
    }

    open spec fn eq_spec(&self, other: &Self) -> bool {
        self@ == other@
    }
}

impl Eq for ShortCode {}

} // verus!
