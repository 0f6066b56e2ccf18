//! Requests and rows of the expense service.

use vstd::prelude::*;
use crate::errors::expense_errors::ExpenseError;
use crate::ident::is_nil;
use crate::models::amount::Amount;
use crate::text::{byte_len, byte_length};

verus! {

/// A request to add or to edit an expense. The date is the number of days
/// since 1 January of year 1.
#[derive(Debug)]
pub struct ExpenseRequest {
    pub amount: Amount,
    pub description: String,
    pub category_id: u128,
    pub date: i32,
    pub payment_method: Option<String>,
    pub is_recurring: bool,
    pub tags: Option<Vec<String>>,
}

/// Why an expense request is refused.
pub enum ExpenseFault {
    Amount,
    DescriptionRequired,
    DescriptionTooLong,
    CategoryRequired,
}

impl ExpenseRequest {
    /// What is wrong with the request, if anything. The checks are made in
    /// this order: the amount must be greater than zero, the description 1 to
    /// 255 bytes long, and the category not the nil identifier.
    pub open spec fn fault(&self) -> Option<ExpenseFault> {
        if self.amount.mantissa <= 0 {
            Some(ExpenseFault::Amount)
        } else if self.description@.len() == 0 {
            Some(ExpenseFault::DescriptionRequired)
        } else if byte_len(self.description@) > 255 {
            Some(ExpenseFault::DescriptionTooLong)
        } else if is_nil(self.category_id) {
            Some(ExpenseFault::CategoryRequired)
        } else {
            None
        }
    }

    /// Judges an expense request.
    pub fn validate(&self) -> (r: Result<(), ExpenseError>)
        ensures
            match self.fault() {
                None => r is Ok,
                Some(ExpenseFault::Amount) => r == Err::<(), ExpenseError>(
                    ExpenseError::InvalidAmountValue,
                ),
                Some(ExpenseFault::DescriptionRequired) => r == Err::<(), ExpenseError>(
                    ExpenseError::DescriptionRequired,
                ),
                Some(ExpenseFault::DescriptionTooLong) => r == Err::<(), ExpenseError>(
                    ExpenseError::DescriptionTooLong,
                ),
                Some(ExpenseFault::CategoryRequired) => r == Err::<(), ExpenseError>(
                    ExpenseError::CategoryIDRequired,
                ),
            },
    {
        if !self.amount.is_positive() {
            return Err(ExpenseError::InvalidAmountValue);
        }
        if self.description.as_str().is_empty() {
            return Err(ExpenseError::DescriptionRequired);
        }
        if byte_length(self.description.as_str()) > 255 {
            return Err(ExpenseError::DescriptionTooLong);
        }
        if self.category_id == 0 {
            return Err(ExpenseError::CategoryIDRequired);
        }
        Ok(())
    }
}

/// An expense as the relational store returns it.
#[derive(Debug)]
pub struct ExpenseResponse {
    pub id: u128,
    pub amount: Amount,
    pub description: String,
    pub user_id: u128,
    pub category_id: u128,
    pub date: i32,
    pub payment_method: Option<String>,
    pub is_recurring: bool,
    pub tags: Option<Vec<String>>,
}

/// A page of expenses with the sum over the whole list.
#[derive(Debug)]
pub struct ExpensesTotal {
    pub expenses: Vec<ExpenseResponse>,
    pub total: Amount,
}

/// A page of expenses with its total, with the mark of where it came from.
#[derive(Debug)]
pub struct ExpensesTotalCached {
    pub expenses_total: ExpensesTotal,
    /// Whether the page was served from the cache.
    pub cached: bool,
}

/// The page that an expense listing asks for.
#[derive(Clone, Copy, Debug)]
pub struct PageParams {
    pub page: i64,
}

/// The expense that a request names in its path.
#[derive(Clone, Copy, Debug)]
pub struct ExpensePath {
    pub expense_id: u128,
}

/// The category that a request names in its path.
#[derive(Clone, Copy, Debug)]
pub struct CategoryIdPath {
    pub category_id: u128,
}

/// One expense, with the mark of where it came from.
#[derive(Debug)]
pub struct ExpenseCached {
    /// Whether the expense was served from the cache.
    pub cached: bool,
    pub expense: ExpenseResponse,
}

/// Number of rows on a page.
pub const PAGE_SIZE: i64 = 10;

/// The page that is served: the first where the request names none before
/// it.
pub open spec fn served_page(page: int) -> int {
    if page < 1 {
        1
    } else {
        page
    }
}

/// Number of rows that stand before a page, capped at the largest 64-bit
/// number.
pub open spec fn page_offset_spec(page: int) -> int {
    let before = (served_page(page) - 1) * PAGE_SIZE;
    if before > i64::MAX {
        i64::MAX as int
    } else {
        before
    }
}

/// Computes the page that is served.
pub fn normalize_page(page: i64) -> (served: i64)
    ensures
        served == served_page(page as int),
{
    if page < 1 {
        1
    } else {
        page
    }
}

/// Computes the number of rows that stand before a page.
pub fn page_offset(page: i64) -> (offset: i64)
    ensures
        offset == page_offset_spec(page as int),
{
    let before = normalize_page(page) - 1;
    if before > i64::MAX / PAGE_SIZE {
        i64::MAX
    } else {
        before * PAGE_SIZE
    }
}

} // verus!
