//! Target locators.  A request path names the page to render; whether that
//! string is a well-formed locator, and its normalized form, are decided by
//! the URL parser, an outside collaborator whose verdict is named here and
//! taken as given.

use vstd::prelude::*;

verus! {

/// The URL parser's verdict on a candidate locator string: `None` when the
/// string is rejected, otherwise the normalized serialization.  It depends
/// on the string alone.
pub uninterp spec fn parsed_locator(s: Seq<char>) -> Option<Seq<char>>;

/// Relies on url's `Url::parse`: parsing is deterministic in the input
/// string, and a parsed URL serializes back to its normalized text.  The
/// error case carries the parser's diagnostic text.
#[verifier::external_body]
fn parse_locator_text(s: &str) -> (parsed: Result<String, String>)
    ensures
        parsed is Ok <==> parsed_locator(s@) is Some,
        parsed is Ok ==> parsed.unwrap()@ == parsed_locator(s@).unwrap(),
{
    match url::Url::parse(s) {
        Ok(parsed_url) => Ok(String::from(parsed_url)),
        Err(parse_error) => Err(format!("{}", parse_error)),
    }
}

/// A locator that parsed: its normalized text, ready to hand to the engine.
#[derive(Debug)]
pub struct Locator {
    text: String,
}

impl View for Locator {
    type V = Seq<char>;

    closed spec fn view(&self) -> Seq<char> {
        self.text@
    }
}

impl Locator {
    /// Parse a candidate locator string.  Succeeds exactly when the URL
    /// parser accepts it; the error carries the parser's diagnostic text.
    pub fn parse(s: &str) -> (parsed: Result<Locator, String>)
        ensures
            parsed is Ok <==> parsed_locator(s@) is Some,
            parsed is Ok ==> parsed.unwrap()@ == parsed_locator(s@).unwrap(),
    {
        match parse_locator_text(s) {
            Ok(text) => Ok(Locator { text }),
            Err(diagnostic) => Err(diagnostic),
        }
    }

    /// The normalized locator text.
    pub fn as_str(&self) -> (s: &str)
        ensures
            s@ == self@,
    {
        self.text.as_str()
    }
}

} // verus!
