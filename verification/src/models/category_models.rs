//! Requests and rows of the category service.

use vstd::prelude::*;
use crate::errors::category_errors::CategoryError;
use crate::text::{byte_len, byte_length};

verus! {

/// A request to add a category.
#[derive(Debug)]
pub struct Category {
    pub name: String,
}

/// Why a category name is refused.
pub enum NameFault {
    Required,
    TooShort,
    TooLong,
}

impl Category {
    /// What is wrong with the name, if anything: it must be 3 to 30 bytes
    /// long.
    pub open spec fn fault(&self) -> Option<NameFault> {
        if self.name@.len() == 0 {
            Some(NameFault::Required)
        } else if byte_len(self.name@) < 3 {
            Some(NameFault::TooShort)
        } else if byte_len(self.name@) > 30 {
            Some(NameFault::TooLong)
        } else {
            None
        }
    }

    /// Judges a request to add a category.
    pub fn validate(&self) -> (r: Result<(), CategoryError>)
        ensures
            match self.fault() {
                None => r is Ok,
                Some(NameFault::Required) => r == Err::<(), CategoryError>(
                    CategoryError::NameRequired,
                ),
                Some(NameFault::TooShort) => r == Err::<(), CategoryError>(
                    CategoryError::NameTooShort,
                ),
                Some(NameFault::TooLong) => r == Err::<(), CategoryError>(
                    CategoryError::NameTooLong,
                ),
            },
    {
        if self.name.as_str().is_empty() {
            return Err(CategoryError::NameRequired);
        }
        if byte_length(self.name.as_str()) < 3 {
            return Err(CategoryError::NameTooShort);
        }
        if byte_length(self.name.as_str()) > 30 {
            return Err(CategoryError::NameTooLong);
        }
        Ok(())
    }
}

/// A category as the relational store returns it.
#[derive(Debug)]
pub struct CategoryResponse {
    pub id: u128,
    pub description: Option<String>,
    pub name: String,
    pub user_id: u128,
}

/// A page of categories, with the mark of where it came from.
#[derive(Debug)]
pub struct CategoriesCached {
    /// Whether the page was served from the cache.
    pub cached: bool,
    pub categories: Vec<CategoryResponse>,
}

/// The page that a category listing asks for.
#[derive(Clone, Copy, Debug)]
pub struct CategoryPagination {
    pub page: i64,
}

/// The page that is served where the request names none.
pub fn default_page() -> (page: i64)
    ensures
        page == 1,
{
    1
}

} // verus!
