//! User names (also used for first and last names).
use crate::domain::unicode::{count_graphemes, grapheme_count};
use crate::text::{chars_of, is_blank, is_blank_seq, owned, push_str};
use vstd::prelude::*;

verus! {

/// A characters that a user name may not hold.
pub open spec fn is_forbidden_name_char(c: char) -> bool {
    c == '/' || c == '(' || c == ')' || c == '"' || c == '<' || c == '>' || c == '\\' || c
        == '{' || c == '}'
}

/// The rule a user name must meet: not blank, at most 256 graphemes, and
/// none of `/ ( ) " < > \ { }`.
pub open spec fn is_valid_username(s: Seq<char>) -> bool {
    &&& !is_blank_seq(s)
    &&& grapheme_count(s) <= 256
    &&& forall|i: int| 0 <= i < s.len() ==> !is_forbidden_name_char(#[trigger] s[i])
}

fn forbidden_name_char(c: char) -> (b: bool)
    ensures
        b == is_forbidden_name_char(c),
{
    c == '/' || c == '(' || c == ')' || c == '"' || c == '<' || c == '>' || c == '\\' || c
        == '{' || c == '}'
}

/// A valid user name.
#[derive(Debug, Clone)]
pub struct Username(String);

impl Username {
    /// The text of the name.
    pub closed spec fn text(&self) -> Seq<char> {
        self.0@
    }

    /// Accepts `s` as a user name, or refuses it with a message quoting it.
    pub fn parse(s: String) -> (r: Result<Username, String>)
        ensures
            match r {
                Ok(n) => is_valid_username(s@) && n.text() == s@,
                Err(e) => !is_valid_username(s@) && e@ == s@ + " is not a valid username."@,
            },
    {
        let is_empty_or_whitespace = is_blank(s.as_str());
        let is_too_long = count_graphemes(s.as_str()) > 256;
        let cs = chars_of(s.as_str());
        let mut contains_forbidden_characters = false;
        let mut i: usize = 0;
        while i < cs.len()
            invariant
                i <= cs.len(),
                cs@ == s@,
                contains_forbidden_characters <==> exists|j: int|
                    0 <= j < i && is_forbidden_name_char(#[trigger] cs@[j]),
            decreases cs.len() - i,
        {
            if forbidden_name_char(cs[i]) {
                contains_forbidden_characters = true;
            }
            i = i + 1;
        }
        if is_empty_or_whitespace || is_too_long || contains_forbidden_characters {
            let mut msg = owned(s.as_str());
            push_str(&mut msg, " is not a valid username.");
            Err(msg)
        } else {
            Ok(Username(s))
        }
    }

    pub fn as_ref(&self) -> (r: &str)
        ensures
            r@ == self.text(),
    {
        self.0.as_str()
    }
}

} // verus!
