//! Category requests.
use crate::domain::category::{is_valid_category_name, CategoryName, NewCategory};
use vstd::prelude::*;

verus! {

/// A category as a client sends it.
#[derive(Debug)]
pub struct CategoryRequest {
    pub name: String,
}

impl CategoryRequest {
    /// The category the request asks for, when its name is valid.
    pub fn into_new_category(self) -> (r: Result<NewCategory, String>)
        ensures
            match r {
                Ok(c) => is_valid_category_name(self.name@) && c.name.text() == self.name@,
                Err(e) => !is_valid_category_name(self.name@) && e@ == self.name@
                    + " is not a valid category name."@,
            },
    {
        let name = CategoryName::parse(self.name)?;
        Ok(NewCategory { name })
    }
}

/// Why a category request failed.
#[derive(Debug, Clone, Copy, PartialEq, Eq, Structural)]
pub enum CategoryError {
    ValidationError,
    NotFound,
}

impl CategoryError {
    /// The HTTP status and message of the error.
    pub fn reply(&self) -> (r: (u16, &'static str))
        ensures
            match *self {
                CategoryError::ValidationError => r.0 == 400 && r.1@
                    == "Invalid category data provided"@,
                CategoryError::NotFound => r.0 == 404 && r.1@ == "Category not found"@,
            },
    {
        match self {
            CategoryError::ValidationError => (400, "Invalid category data provided"),
            CategoryError::NotFound => (404, "Category not found"),
        }
    }
}

/// An update or deletion that touched no row names a missing category.
pub fn check_category_changed(rows_affected: u64) -> (r: Result<(), CategoryError>)
    ensures
        r is Ok <==> rows_affected > 0,
        r matches Err(e) ==> e == CategoryError::NotFound,
{
    if rows_affected == 0 {
        Err(CategoryError::NotFound)
    } else {
        Ok(())
    }
}

/// A stored category.
#[derive(Debug, Clone)]
pub struct Category {
    pub id: i32,
    pub name: String,
}

} // verus!
