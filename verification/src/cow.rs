//! Text that is either owned or borrowed.
use vstd::prelude::*;
use vstd::utf8::encode_utf8;

verus! {

/// Text that is either owned or borrowed from elsewhere.
pub enum CowData<'a> {
    /// Owned text.
    Owned(String),
    /// Borrowed text.
    Borrowed(&'a str),
}

impl<'a> CowData<'a> {
    /// The characters of the text.
    pub open spec fn spec_text(&self) -> Seq<char> {
        match *self {
            CowData::Owned(s) => s@,
            CowData::Borrowed(s) => s@,
        }
    }

    /// Access the text.
    pub fn as_ref(&self) -> (r: &str)
        ensures
            r@ == self.spec_text(),
    {
        match self {
            CowData::Owned(s) => s.as_str(),
            CowData::Borrowed(s) => s,
        }
    }

    /// The length of the text in bytes (of its UTF-8 encoding).
    pub fn len(&self) -> (r: usize)
        ensures
            r == encode_utf8(self.spec_text()).len() as usize,
    {
        match self {
            CowData::Owned(s) => s.as_str().len(),
            CowData::Borrowed(s) => s.len(),
        }
    }

    /// Convert to an owned string, copying the text if it was borrowed.
    pub fn into_owned(self) -> (r: String)
        ensures
            r@ == self.spec_text(),
    {
        match self {
            CowData::Owned(s) => s,
            CowData::Borrowed(s) => s.to_owned(),
        }
    }

    /// A copy of the text as an owned string.
    pub fn ref_into_owned(&self) -> (r: String)
        ensures
            r@ == self.spec_text(),
    {
        self.as_ref().to_owned()
    }
}

} // verus!
