//! Category names.
use crate::domain::unicode::{count_graphemes, grapheme_count};
use crate::text::{is_blank, is_blank_seq, owned, push_str};
use vstd::prelude::*;

verus! {

/// A category name: not blank and at most 100 graphemes long.
#[derive(Debug, Clone)]
pub struct CategoryName(String);

/// The rule a category name must meet.
pub open spec fn is_valid_category_name(s: Seq<char>) -> bool {
    !is_blank_seq(s) && grapheme_count(s) <= 100
}

impl CategoryName {
    /// The text of the name.
    pub closed spec fn text(&self) -> Seq<char> {
        self.0@
    }

    /// Accepts `s` as a category name, or refuses it with a message quoting it.
    pub fn parse(s: String) -> (r: Result<CategoryName, String>)
        ensures
            match r {
                Ok(n) => is_valid_category_name(s@) && n.text() == s@,
                Err(e) => !is_valid_category_name(s@) && e@ == s@
                    + " is not a valid category name."@,
            },
    {
        let is_empty_or_whitespace = is_blank(s.as_str());
        let is_too_long = count_graphemes(s.as_str()) > 100;
        if is_empty_or_whitespace || is_too_long {
            let mut msg = owned(s.as_str());
            push_str(&mut msg, " is not a valid category name.");
            Err(msg)
        } else {
            Ok(CategoryName(s))
        }
    }

    pub fn as_ref(&self) -> (r: &str)
        ensures
            r@ == self.text(),
    {
        self.0.as_str()
    }
}

/// A category about to be created or renamed.
#[derive(Debug)]
pub struct NewCategory {
    pub name: CategoryName,
}

impl NewCategory {
    /// Builds a category from the requested name, refusing invalid names.
    pub fn try_from(name: String) -> (r: Result<NewCategory, String>)
        ensures
            match r {
                Ok(c) => is_valid_category_name(name@) && c.name.text() == name@,
                Err(e) => !is_valid_category_name(name@) && e@ == name@
                    + " is not a valid category name."@,
            },
    {
        let name = CategoryName::parse(name)?;
        Ok(NewCategory { name })
    }
}

} // verus!
