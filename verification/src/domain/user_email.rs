//! E-mail addresses.
use crate::domain::unicode::{count_graphemes, grapheme_count};
use crate::text::{owned, push_str};
use vstd::prelude::*;

verus! {

/// What `validator::validate_email` returns for `s`: whether the text has
/// the shape of an e-mail address under its HTML5-style user and domain
/// patterns (with IDN and IP-literal domains), which take the regular
/// expressions to state.
pub uninterp spec fn email_is_valid(s: Seq<char>) -> bool;

/// `validator::validate_email` (validator).
#[verifier::external_body]
fn validate_email(s: &str) -> (b: bool)
    ensures
        b == email_is_valid(s@),
{
    validator::validate_email(s)
}

/// The rule an address must meet: valid, and at most 256 graphemes.
pub open spec fn is_valid_user_email(s: Seq<char>) -> bool {
    email_is_valid(s) && grapheme_count(s) <= 256
}

/// A valid e-mail address.
#[derive(Debug, Clone)]
pub struct UserEmail(String);

impl UserEmail {
    /// The text of the address.
    pub closed spec fn text(&self) -> Seq<char> {
        self.0@
    }

    /// Accepts `s` as an e-mail address, or refuses it with a message quoting it.
    pub fn parse(s: String) -> (r: Result<UserEmail, String>)
        ensures
            match r {
                Ok(n) => is_valid_user_email(s@) && n.text() == s@,
                Err(e) => !is_valid_user_email(s@) && e@ == s@ + " is not a valid user email."@,
            },
    {
        let is_not_too_long = count_graphemes(s.as_str()) <= 256;
        if validate_email(s.as_str()) && is_not_too_long {
            Ok(UserEmail(s))
        } else {
            let mut msg = owned(s.as_str());
            push_str(&mut msg, " is not a valid user email.");
            Err(msg)
        }
    }

    pub fn as_ref(&self) -> (r: &str)
        ensures
            r@ == self.text(),
    {
        self.0.as_str()
    }
}

} // verus!
