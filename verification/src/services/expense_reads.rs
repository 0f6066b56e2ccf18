//! Reading a user's expenses through the cache: lists page by page under
//! the generation of their scope, single expenses and totals under keys of
//! their own.
//!
//! The cache is an optimisation. Where the key-value store fails, a read
//! goes on as if the cache held nothing and could keep nothing: it is
//! served by the relational store and marked as not served from the cache.
//! Only a failure of the relational store or of a codec ends a read.

use vstd::prelude::*;
use crate::cache::{
    found_in, keep_batch, keep_commands, lookup_batch, lookup_commands, read_cached,
    read_generation, resolved_in,
};
use crate::errors::expense_errors::ExpenseError;
use crate::errors::store_errors::DbFailure;
use crate::flow::{out_of_turn, Step};
use crate::keys::{
    category_filter_total_expense_key, category_filter_total_expense_key_text,
    single_expense_key, single_expense_key_text, total_expense_key, total_expense_key_text,
    PageRef, Scope,
};
use crate::models::amount::{decimal_parse, decimal_text, Amount};
use crate::models::expense_model::{
    page_offset, page_offset_spec, ExpenseCached, ExpenseResponse, ExpensesTotal,
    ExpensesTotalCached, PAGE_SIZE,
};
use crate::services::expense_services::{
    asks, asks_store, bad_total, batch_of, failed_with, sends, succeeded_with,
    unwritable_total, ExpenseAction, ExpenseEvent,
};
use crate::traffic::{is_read_traffic, Traffic};

verus! {

/// Whether a step ended the read with the given rows and total, marked as
/// not served from the cache.
pub open spec fn serves_fresh<F>(
    step: Step<F, ExpenseAction, Result<ExpensesTotalCached, ExpenseError>>,
    expenses: Vec<ExpenseResponse>,
    mantissa: int,
    scale: int,
) -> bool {
    &&& step matches Step::Done { result: Ok(served) }
    &&& !served.cached
    &&& served.expenses_total.expenses == expenses
    &&& served.expenses_total.total.mantissa == mantissa
    &&& served.expenses_total.total.scale == scale
}

/// Whether a step lets the read go on, or ends it in success with what was
/// read marked as not served from the cache.
pub open spec fn survives<F>(
    step: Step<F, ExpenseAction, Result<ExpensesTotalCached, ExpenseError>>,
) -> bool {
    match step {
        Step::Ask { flow, action } => true,
        Step::Done { result: Ok(served) } => !served.cached,
        _ => false,
    }
}

/// The select of one page of all expenses of a user.
pub open spec fn page_select(at: PageRef) -> ExpenseAction {
    ExpenseAction::SelectPage {
        user_id: at.user_id,
        limit: PAGE_SIZE,
        offset: page_offset_spec(at.page as int) as i64,
    }
}

/// The select of one page of a user's expenses in one category.
pub open spec fn category_page_select(category_id: u128, at: PageRef) -> ExpenseAction {
    ExpenseAction::SelectCategoryPage {
        user_id: at.user_id,
        category_id,
        limit: PAGE_SIZE,
        offset: page_offset_spec(at.page as int) as i64,
    }
}

/// Reading one page of all expenses of a user, with the total.
pub enum ExpensePageRead {
    /// The generation of the list is being resolved.
    Resolving { user_id: u128, page: i64 },
    /// The page is being looked up in the cache.
    Looking { at: PageRef },
    /// The cached page is being parsed.
    Decoding,
    /// The page is being read from the relational store.
    Loading { at: PageRef },
    /// The total is being looked up in the cache.
    LookingTotal { at: PageRef, expenses: Vec<ExpenseResponse> },
    /// The total is being computed by the relational store.
    Summing { at: PageRef, expenses: Vec<ExpenseResponse> },
    /// The total is being cached.
    KeepingTotal { at: PageRef, found: ExpensesTotal },
    /// The page is being written as text.
    Encoding { at: PageRef, found: ExpensesTotal },
    /// The page is being cached.
    Keeping { found: ExpensesTotal },
}

pub type ExpensePageStep = Step<
    ExpensePageRead,
    ExpenseAction,
    Result<ExpensesTotalCached, ExpenseError>,
>;

/// What a read of a page does once it has the rows and the total: where a
/// generation was resolved it asks for the page to be written as text, so
/// as to cache it; where none was, it ends with what was read.
pub open spec fn encodes_or_serves(
    step: ExpensePageStep,
    at: PageRef,
    expenses: Vec<ExpenseResponse>,
    mantissa: int,
    scale: int,
) -> bool {
    if at.generation is Some {
        &&& step matches Step::Ask {
            flow: ExpensePageRead::Encoding { at: kept, found },
            action: ExpenseAction::Encode,
        }
        &&& kept == at
        &&& found.expenses == expenses
        &&& found.total.mantissa == mantissa
        &&& found.total.scale == scale
    } else {
        serves_fresh(step, expenses, mantissa, scale)
    }
}

impl ExpensePageRead {
    /// The value that the flow holds ready to be written as text.
    pub open spec fn ready(self) -> Option<ExpensesTotal> {
        match self {
            ExpensePageRead::Encoding { at, found } => Some(found),
            _ => None,
        }
    }

    /// The value that `ExpenseAction::Encode` asks to be written as text.
    pub fn pending(&self) -> (value: Option<&ExpensesTotal>)
        ensures
            match value {
                Some(held) => self.ready() == Some(*held),
                None => self.ready() is None,
            },
    {
        match self {
            ExpensePageRead::Encoding { at: _, found } => Some(found),
            _ => None,
        }
    }

    /// What a step makes of an outcome, state by state.
    pub open spec fn next(self, event: ExpenseEvent, step: ExpensePageStep) -> bool {
        match (self, event) {
            (ExpensePageRead::Resolving { user_id, page }, ExpenseEvent::Store(outcome)) => {
                match resolved_in(outcome) {
                    Some(generation) => {
                        &&& step matches Step::Ask {
                            flow: ExpensePageRead::Looking { at },
                            action,
                        }
                        &&& at.names(Scope::Expenses, user_id, Some(generation), page)
                        &&& sends(action, lookup_batch(at.key_text()))
                    },
                    None => {
                        &&& step matches Step::Ask {
                            flow: ExpensePageRead::Loading { at },
                            action,
                        }
                        &&& at.names(Scope::Expenses, user_id, None, page)
                        &&& action == page_select(at)
                    },
                }
            },
            (ExpensePageRead::Looking { at }, ExpenseEvent::Store(outcome)) => {
                match found_in(outcome) {
                    Some(text) => {
                        &&& step matches Step::Ask {
                            flow: ExpensePageRead::Decoding,
                            action: ExpenseAction::DecodePage(cached),
                        }
                        &&& cached@ == text
                    },
                    None => asks(step, ExpensePageRead::Loading { at }, page_select(at)),
                }
            },
            (ExpensePageRead::Decoding, ExpenseEvent::DecodedPage(decoded)) => {
                match decoded {
                    Err(cause) => failed_with(step, cause@),
                    Ok(found) => succeeded_with(
                        step,
                        ExpensesTotalCached { expenses_total: found, cached: true },
                    ),
                }
            },
            (ExpensePageRead::Loading { at }, ExpenseEvent::Rows(rows)) => {
                match rows {
                    Err(failure) => failed_with(step, failure.message_spec()),
                    Ok(expenses) => asks_store(
                        step,
                        ExpensePageRead::LookingTotal { at, expenses },
                        lookup_batch(total_expense_key_text(at.user_id)),
                    ),
                }
            },
            (ExpensePageRead::LookingTotal { at, expenses }, ExpenseEvent::Store(outcome)) => {
                match found_in(outcome) {
                    Some(text) => match decimal_parse(text) {
                        None => failed_with(step, "cached total is not a decimal number"@),
                        Some((mantissa, scale)) => encodes_or_serves(
                            step,
                            at,
                            expenses,
                            mantissa,
                            scale,
                        ),
                    },
                    None => asks(
                        step,
                        ExpensePageRead::Summing { at, expenses },
                        ExpenseAction::SumAll { user_id: at.user_id },
                    ),
                }
            },
            (ExpensePageRead::Summing { at, expenses }, ExpenseEvent::Sum(sum)) => {
                match sum {
                    Err(failure) => failed_with(step, failure.message_spec()),
                    Ok(total) => if total.wf() {
                        &&& total.reads_back()
                        &&& asks_store(
                            step,
                            ExpensePageRead::KeepingTotal {
                                at,
                                found: ExpensesTotal { expenses, total },
                            },
                            keep_batch(
                                total_expense_key_text(at.user_id),
                                decimal_text(total.mantissa as int, total.scale as int),
                            ),
                        )
                    } else {
                        failed_with(step, "total cannot be represented"@)
                    },
                }
            },
            (ExpensePageRead::KeepingTotal { at, found }, ExpenseEvent::Store(outcome)) => {
                encodes_or_serves(
                    step,
                    at,
                    found.expenses,
                    found.total.mantissa as int,
                    found.total.scale as int,
                )
            },
            (ExpensePageRead::Encoding { at, found }, ExpenseEvent::Encoded(encoded)) => {
                match encoded {
                    Err(cause) => failed_with(step, cause@),
                    Ok(text) => if at.generation is Some {
                        asks_store(
                            step,
                            ExpensePageRead::Keeping { found },
                            keep_batch(at.key_text(), text@),
                        )
                    } else {
                        succeeded_with(
                            step,
                            ExpensesTotalCached { expenses_total: found, cached: false },
                        )
                    },
                }
            },
            (ExpensePageRead::Keeping { found }, ExpenseEvent::Store(outcome)) => {
                succeeded_with(step, ExpensesTotalCached { expenses_total: found, cached: false })
            },
            _ => failed_with(step, "outcome does not answer the pending action"@),
        }
    }

    fn encode_or_serve(at: PageRef, found: ExpensesTotal) -> (step: ExpensePageStep)
        ensures
            encodes_or_serves(
                step,
                at,
                found.expenses,
                found.total.mantissa as int,
                found.total.scale as int,
            ),
    {
        if at.generation.is_some() {
            Step::Ask {
                flow: ExpensePageRead::Encoding { at, found },
                action: ExpenseAction::Encode,
            }
        } else {
            Step::Done { result: Ok(ExpensesTotalCached { expenses_total: found, cached: false }) }
        }
    }

    /// Takes the outcome of the pending action and decides what comes next.
    /// A page found in the cache is served as it is; otherwise the page is
    /// read from the relational store, the total from the cache or from the
    /// relational store, and the page with its total is cached under the
    /// generation that was resolved. No failure of the key-value store ends
    /// the read: a generation that cannot be resolved means a read without
    /// the cache, a lookup that fails counts as one that found nothing, and
    /// what cannot be cached is served all the same.
    pub fn step(self, event: ExpenseEvent) -> (step: ExpensePageStep)
        ensures
            self.next(event, step),
    {
        match (self, event) {
            (ExpensePageRead::Resolving { user_id, page }, ExpenseEvent::Store(outcome)) => {
                match read_generation(outcome) {
                    Some(generation) => {
                        let key = Scope::Expenses.page_key(user_id, generation.as_str(), page);
                        let at = PageRef {
                            scope: Scope::Expenses,
                            user_id,
                            generation: Some(generation),
                            page,
                        };
                        Step::Ask {
                            flow: ExpensePageRead::Looking { at },
                            action: ExpenseAction::Store(lookup_commands(key)),
                        }
                    },
                    None => {
                        let at = PageRef {
                            scope: Scope::Expenses,
                            user_id,
                            generation: None,
                            page,
                        };
                        let action = ExpenseAction::SelectPage {
                            user_id,
                            limit: PAGE_SIZE,
                            offset: page_offset(page),
                        };
                        Step::Ask { flow: ExpensePageRead::Loading { at }, action }
                    },
                }
            },
            (ExpensePageRead::Looking { at }, ExpenseEvent::Store(outcome)) => {
                match read_cached(outcome) {
                    Some(cached) => Step::Ask {
                        flow: ExpensePageRead::Decoding,
                        action: ExpenseAction::DecodePage(cached),
                    },
                    None => {
                        let action = ExpenseAction::SelectPage {
                            user_id: at.user_id,
                            limit: PAGE_SIZE,
                            offset: page_offset(at.page),
                        };
                        Step::Ask { flow: ExpensePageRead::Loading { at }, action }
                    },
                }
            },
            (ExpensePageRead::Decoding, ExpenseEvent::DecodedPage(decoded)) => {
                match decoded {
                    Err(cause) => Step::Done { result: Err(ExpenseError::Internal(cause)) },
                    Ok(found) => Step::Done {
                        result: Ok(ExpensesTotalCached { expenses_total: found, cached: true }),
                    },
                }
            },
            (ExpensePageRead::Loading { at }, ExpenseEvent::Rows(rows)) => {
                match rows {
                    Err(failure) => Step::Done {
                        result: Err(ExpenseError::Internal(failure.into_message())),
                    },
                    Ok(expenses) => {
                        let batch = lookup_commands(total_expense_key(at.user_id));
                        Step::Ask {
                            flow: ExpensePageRead::LookingTotal { at, expenses },
                            action: ExpenseAction::Store(batch),
                        }
                    },
                }
            },
            (ExpensePageRead::LookingTotal { at, expenses }, ExpenseEvent::Store(outcome)) => {
                match read_cached(outcome) {
                    Some(text) => match Amount::from_text(text.as_str()) {
                        Err(_) => Step::Done { result: Err(ExpenseError::Internal(bad_total())) },
                        Ok(total) => Self::encode_or_serve(at, ExpensesTotal { expenses, total }),
                    },
                    None => {
                        let action = ExpenseAction::SumAll { user_id: at.user_id };
                        Step::Ask { flow: ExpensePageRead::Summing { at, expenses }, action }
                    },
                }
            },
            (ExpensePageRead::Summing { at, expenses }, ExpenseEvent::Sum(sum)) => {
                match sum {
                    Err(failure) => Step::Done {
                        result: Err(ExpenseError::Internal(failure.into_message())),
                    },
                    Ok(total) => match total.to_text() {
                        Err(_) => Step::Done {
                            result: Err(ExpenseError::Internal(unwritable_total())),
                        },
                        Ok(text) => {
                            let batch = keep_commands(total_expense_key(at.user_id), text);
                            Step::Ask {
                                flow: ExpensePageRead::KeepingTotal {
                                    at,
                                    found: ExpensesTotal { expenses, total },
                                },
                                action: ExpenseAction::Store(batch),
                            }
                        },
                    },
                }
            },
            (ExpensePageRead::KeepingTotal { at, found }, ExpenseEvent::Store(_)) => {
                Self::encode_or_serve(at, found)
            },
            (ExpensePageRead::Encoding { at, found }, ExpenseEvent::Encoded(encoded)) => {
                match encoded {
                    Err(cause) => Step::Done { result: Err(ExpenseError::Internal(cause)) },
                    Ok(text) => match at.key() {
                        Some(key) => Step::Ask {
                            flow: ExpensePageRead::Keeping { found },
                            action: ExpenseAction::Store(keep_commands(key, text)),
                        },
                        None => Step::Done {
                            result: Ok(
                                ExpensesTotalCached { expenses_total: found, cached: false },
                            ),
                        },
                    },
                }
            },
            (ExpensePageRead::Keeping { found }, ExpenseEvent::Store(_)) => {
                Step::Done {
                    result: Ok(ExpensesTotalCached { expenses_total: found, cached: false }),
                }
            },
            _ => Step::Done { result: Err(ExpenseError::Internal(out_of_turn())) },
        }
    }
}

/// Reading one page of a user's expenses in one category, with the total of
/// the category.
pub enum CategoryExpensesRead {
    /// The generation of the category's list is being resolved.
    Resolving { user_id: u128, category_id: u128, page: i64 },
    /// The total is being looked up in the cache.
    LookingTotal { category_id: u128, at: PageRef },
    /// The total is being computed by the relational store.
    Summing { category_id: u128, at: PageRef },
    /// The total is being cached.
    KeepingTotal { category_id: u128, at: PageRef, total: Amount },
    /// The page is being looked up in the cache.
    Looking { category_id: u128, at: PageRef, total: Amount },
    /// The cached page is being parsed.
    Decoding { total: Amount },
    /// The page is being read from the relational store.
    Loading { at: PageRef, total: Amount },
    /// The page is being written as text.
    Encoding { at: PageRef, expenses: Vec<ExpenseResponse>, total: Amount },
    /// The page is being cached.
    Keeping { found: ExpensesTotal },
}

pub type CategoryExpensesStep = Step<
    CategoryExpensesRead,
    ExpenseAction,
    Result<ExpensesTotalCached, ExpenseError>,
>;

/// What a read of a category's page does once it has the total: where a
/// generation was resolved it looks the page up in the cache; where none
/// was, it reads the page from the relational store.
pub open spec fn looks_or_loads(
    step: CategoryExpensesStep,
    category_id: u128,
    at: PageRef,
    mantissa: int,
    scale: int,
) -> bool {
    if at.generation is Some {
        &&& step matches Step::Ask {
            flow: CategoryExpensesRead::Looking { category_id: c, at: kept, total },
            action,
        }
        &&& c == category_id
        &&& kept == at
        &&& total.mantissa == mantissa
        &&& total.scale == scale
        &&& sends(action, lookup_batch(at.key_text()))
    } else {
        &&& step matches Step::Ask {
            flow: CategoryExpensesRead::Loading { at: kept, total },
            action,
        }
        &&& kept == at
        &&& total.mantissa == mantissa
        &&& total.scale == scale
        &&& action == category_page_select(category_id, at)
    }
}

impl CategoryExpensesRead {
    /// The value that the flow holds ready to be written as text.
    pub open spec fn ready(self) -> Option<Vec<ExpenseResponse>> {
        match self {
            CategoryExpensesRead::Encoding { at, expenses, total } => Some(expenses),
            _ => None,
        }
    }

    /// The value that `ExpenseAction::Encode` asks to be written as text.
    pub fn pending(&self) -> (value: Option<&Vec<ExpenseResponse>>)
        ensures
            match value {
                Some(held) => self.ready() == Some(*held),
                None => self.ready() is None,
            },
    {
        match self {
            CategoryExpensesRead::Encoding { at: _, expenses, total: _ } => Some(expenses),
            _ => None,
        }
    }

    /// What a step makes of an outcome, state by state.
    pub open spec fn next(self, event: ExpenseEvent, step: CategoryExpensesStep) -> bool {
        match (self, event) {
            (
                CategoryExpensesRead::Resolving { user_id, category_id, page },
                ExpenseEvent::Store(outcome),
            ) => {
                &&& step matches Step::Ask {
                    flow: CategoryExpensesRead::LookingTotal { category_id: c, at },
                    action,
                }
                &&& c == category_id
                &&& at.names(
                    Scope::CategoryExpenses { category_id },
                    user_id,
                    resolved_in(outcome),
                    page,
                )
                &&& sends(
                    action,
                    lookup_batch(category_filter_total_expense_key_text(category_id, user_id)),
                )
            },
            (
                CategoryExpensesRead::LookingTotal { category_id, at },
                ExpenseEvent::Store(outcome),
            ) => {
                match found_in(outcome) {
                    Some(text) => match decimal_parse(text) {
                        None => failed_with(step, "cached total is not a decimal number"@),
                        Some((mantissa, scale)) => looks_or_loads(
                            step,
                            category_id,
                            at,
                            mantissa,
                            scale,
                        ),
                    },
                    None => asks(
                        step,
                        CategoryExpensesRead::Summing { category_id, at },
                        ExpenseAction::SumCategory { user_id: at.user_id, category_id },
                    ),
                }
            },
            (CategoryExpensesRead::Summing { category_id, at }, ExpenseEvent::Sum(sum)) => {
                match sum {
                    Err(failure) => failed_with(step, failure.message_spec()),
                    Ok(total) => if total.wf() {
                        &&& total.reads_back()
                        &&& asks_store(
                            step,
                            CategoryExpensesRead::KeepingTotal { category_id, at, total },
                            keep_batch(
                                category_filter_total_expense_key_text(category_id, at.user_id),
                                decimal_text(total.mantissa as int, total.scale as int),
                            ),
                        )
                    } else {
                        failed_with(step, "total cannot be represented"@)
                    },
                }
            },
            (
                CategoryExpensesRead::KeepingTotal { category_id, at, total },
                ExpenseEvent::Store(outcome),
            ) => looks_or_loads(
                step,
                category_id,
                at,
                total.mantissa as int,
                total.scale as int,
            ),
            (
                CategoryExpensesRead::Looking { category_id, at, total },
                ExpenseEvent::Store(outcome),
            ) => {
                match found_in(outcome) {
                    Some(text) => {
                        &&& step matches Step::Ask {
                            flow,
                            action: ExpenseAction::DecodeRows(cached),
                        }
                        &&& flow == (CategoryExpensesRead::Decoding { total })
                        &&& cached@ == text
                    },
                    None => asks(
                        step,
                        CategoryExpensesRead::Loading { at, total },
                        category_page_select(category_id, at),
                    ),
                }
            },
            (CategoryExpensesRead::Decoding { total }, ExpenseEvent::DecodedRows(decoded)) => {
                match decoded {
                    Err(cause) => failed_with(step, cause@),
                    Ok(expenses) => succeeded_with(
                        step,
                        ExpensesTotalCached {
                            expenses_total: ExpensesTotal { expenses, total },
                            cached: true,
                        },
                    ),
                }
            },
            (CategoryExpensesRead::Loading { at, total }, ExpenseEvent::Rows(rows)) => {
                match rows {
                    Err(failure) => failed_with(step, failure.message_spec()),
                    Ok(expenses) => if at.generation is Some {
                        asks(
                            step,
                            CategoryExpensesRead::Encoding { at, expenses, total },
                            ExpenseAction::Encode,
                        )
                    } else {
                        succeeded_with(
                            step,
                            ExpensesTotalCached {
                                expenses_total: ExpensesTotal { expenses, total },
                                cached: false,
                            },
                        )
                    },
                }
            },
            (
                CategoryExpensesRead::Encoding { at, expenses, total },
                ExpenseEvent::Encoded(encoded),
            ) => {
                match encoded {
                    Err(cause) => failed_with(step, cause@),
                    Ok(text) => if at.generation is Some {
                        asks_store(
                            step,
                            CategoryExpensesRead::Keeping {
                                found: ExpensesTotal { expenses, total },
                            },
                            keep_batch(at.key_text(), text@),
                        )
                    } else {
                        succeeded_with(
                            step,
                            ExpensesTotalCached {
                                expenses_total: ExpensesTotal { expenses, total },
                                cached: false,
                            },
                        )
                    },
                }
            },
            (CategoryExpensesRead::Keeping { found }, ExpenseEvent::Store(outcome)) => {
                succeeded_with(step, ExpensesTotalCached { expenses_total: found, cached: false })
            },
            _ => failed_with(step, "outcome does not answer the pending action"@),
        }
    }

    fn look_or_load(category_id: u128, at: PageRef, total: Amount) -> (step: CategoryExpensesStep)
        ensures
            looks_or_loads(step, category_id, at, total.mantissa as int, total.scale as int),
    {
        match at.key() {
            Some(key) => Step::Ask {
                flow: CategoryExpensesRead::Looking { category_id, at, total },
                action: ExpenseAction::Store(lookup_commands(key)),
            },
            None => {
                let action = ExpenseAction::SelectCategoryPage {
                    user_id: at.user_id,
                    category_id,
                    limit: PAGE_SIZE,
                    offset: page_offset(at.page),
                };
                Step::Ask { flow: CategoryExpensesRead::Loading { at, total }, action }
            },
        }
    }

    /// Takes the outcome of the pending action and decides what comes next.
    /// The total of the category is taken from the cache or from the
    /// relational store first; then the page is served from the cache, or
    /// read from the relational store and cached under the generation that
    /// was resolved. No failure of the key-value store ends the read.
    pub fn step(self, event: ExpenseEvent) -> (step: CategoryExpensesStep)
        ensures
            self.next(event, step),
    {
        match (self, event) {
            (
                CategoryExpensesRead::Resolving { user_id, category_id, page },
                ExpenseEvent::Store(outcome),
            ) => {
                let at = PageRef {
                    scope: Scope::CategoryExpenses { category_id },
                    user_id,
                    generation: read_generation(outcome),
                    page,
                };
                let batch = lookup_commands(
                    category_filter_total_expense_key(category_id, user_id),
                );
                Step::Ask {
                    flow: CategoryExpensesRead::LookingTotal { category_id, at },
                    action: ExpenseAction::Store(batch),
                }
            },
            (
                CategoryExpensesRead::LookingTotal { category_id, at },
                ExpenseEvent::Store(outcome),
            ) => {
                match read_cached(outcome) {
                    Some(text) => match Amount::from_text(text.as_str()) {
                        Err(_) => Step::Done { result: Err(ExpenseError::Internal(bad_total())) },
                        Ok(total) => Self::look_or_load(category_id, at, total),
                    },
                    None => {
                        let action = ExpenseAction::SumCategory {
                            user_id: at.user_id,
                            category_id,
                        };
                        Step::Ask {
                            flow: CategoryExpensesRead::Summing { category_id, at },
                            action,
                        }
                    },
                }
            },
            (CategoryExpensesRead::Summing { category_id, at }, ExpenseEvent::Sum(sum)) => {
                match sum {
                    Err(failure) => Step::Done {
                        result: Err(ExpenseError::Internal(failure.into_message())),
                    },
                    Ok(total) => match total.to_text() {
                        Err(_) => Step::Done {
                            result: Err(ExpenseError::Internal(unwritable_total())),
                        },
                        Ok(text) => {
                            let batch = keep_commands(
                                category_filter_total_expense_key(category_id, at.user_id),
                                text,
                            );
                            Step::Ask {
                                flow: CategoryExpensesRead::KeepingTotal { category_id, at, total },
                                action: ExpenseAction::Store(batch),
                            }
                        },
                    },
                }
            },
            (
                CategoryExpensesRead::KeepingTotal { category_id, at, total },
                ExpenseEvent::Store(_),
            ) => Self::look_or_load(category_id, at, total),
            (
                CategoryExpensesRead::Looking { category_id, at, total },
                ExpenseEvent::Store(outcome),
            ) => {
                match read_cached(outcome) {
                    Some(cached) => Step::Ask {
                        flow: CategoryExpensesRead::Decoding { total },
                        action: ExpenseAction::DecodeRows(cached),
                    },
                    None => {
                        let action = ExpenseAction::SelectCategoryPage {
                            user_id: at.user_id,
                            category_id,
                            limit: PAGE_SIZE,
                            offset: page_offset(at.page),
                        };
                        Step::Ask { flow: CategoryExpensesRead::Loading { at, total }, action }
                    },
                }
            },
            (CategoryExpensesRead::Decoding { total }, ExpenseEvent::DecodedRows(decoded)) => {
                match decoded {
                    Err(cause) => Step::Done { result: Err(ExpenseError::Internal(cause)) },
                    Ok(expenses) => Step::Done {
                        result: Ok(
                            ExpensesTotalCached {
                                expenses_total: ExpensesTotal { expenses, total },
                                cached: true,
                            },
                        ),
                    },
                }
            },
            (CategoryExpensesRead::Loading { at, total }, ExpenseEvent::Rows(rows)) => {
                match rows {
                    Err(failure) => Step::Done {
                        result: Err(ExpenseError::Internal(failure.into_message())),
                    },
                    Ok(expenses) => {
                        if at.generation.is_some() {
                            Step::Ask {
                                flow: CategoryExpensesRead::Encoding { at, expenses, total },
                                action: ExpenseAction::Encode,
                            }
                        } else {
                            Step::Done {
                                result: Ok(
                                    ExpensesTotalCached {
                                        expenses_total: ExpensesTotal { expenses, total },
                                        cached: false,
                                    },
                                ),
                            }
                        }
                    },
                }
            },
            (
                CategoryExpensesRead::Encoding { at, expenses, total },
                ExpenseEvent::Encoded(encoded),
            ) => {
                match encoded {
                    Err(cause) => Step::Done { result: Err(ExpenseError::Internal(cause)) },
                    Ok(text) => match at.key() {
                        Some(key) => Step::Ask {
                            flow: CategoryExpensesRead::Keeping {
                                found: ExpensesTotal { expenses, total },
                            },
                            action: ExpenseAction::Store(keep_commands(key, text)),
                        },
                        None => Step::Done {
                            result: Ok(
                                ExpensesTotalCached {
                                    expenses_total: ExpensesTotal { expenses, total },
                                    cached: false,
                                },
                            ),
                        },
                    },
                }
            },
            (CategoryExpensesRead::Keeping { found }, ExpenseEvent::Store(_)) => {
                Step::Done {
                    result: Ok(ExpensesTotalCached { expenses_total: found, cached: false }),
                }
            },
            _ => Step::Done { result: Err(ExpenseError::Internal(out_of_turn())) },
        }
    }
}

/// Reading one expense of a user.
pub enum ExpenseRead {
    /// The expense is being looked up in the cache.
    Looking { user_id: u128, expense_id: u128 },
    /// The cached expense is being parsed.
    Decoding,
    /// The expense is being read from the relational store.
    Loading { user_id: u128, expense_id: u128 },
    /// The expense is being written as text.
    Encoding { user_id: u128, expense_id: u128, expense: ExpenseResponse },
    /// The expense is being cached.
    Keeping { expense: ExpenseResponse },
}

pub type ExpenseReadStep = Step<ExpenseRead, ExpenseAction, Result<ExpenseCached, ExpenseError>>;

impl ExpenseRead {
    /// The value that the flow holds ready to be written as text.
    pub open spec fn ready(self) -> Option<ExpenseResponse> {
        match self {
            ExpenseRead::Encoding { user_id, expense_id, expense } => Some(expense),
            _ => None,
        }
    }

    /// The value that `ExpenseAction::Encode` asks to be written as text.
    pub fn pending(&self) -> (value: Option<&ExpenseResponse>)
        ensures
            match value {
                Some(held) => self.ready() == Some(*held),
                None => self.ready() is None,
            },
    {
        match self {
            ExpenseRead::Encoding { user_id: _, expense_id: _, expense } => Some(expense),
            _ => None,
        }
    }

    /// What a step makes of an outcome, state by state.
    pub open spec fn next(self, event: ExpenseEvent, step: ExpenseReadStep) -> bool {
        match (self, event) {
            (ExpenseRead::Looking { user_id, expense_id }, ExpenseEvent::Store(outcome)) => {
                match found_in(outcome) {
                    Some(text) => {
                        &&& step matches Step::Ask {
                            flow: ExpenseRead::Decoding,
                            action: ExpenseAction::DecodeRow(cached),
                        }
                        &&& cached@ == text
                    },
                    None => asks(
                        step,
                        ExpenseRead::Loading { user_id, expense_id },
                        ExpenseAction::SelectOne { user_id, expense_id },
                    ),
                }
            },
            (ExpenseRead::Decoding, ExpenseEvent::DecodedRow(decoded)) => {
                match decoded {
                    Err(cause) => failed_with(step, cause@),
                    Ok(expense) => succeeded_with(step, ExpenseCached { cached: true, expense }),
                }
            },
            (ExpenseRead::Loading { user_id, expense_id }, ExpenseEvent::Row(row)) => {
                match row {
                    Err(DbFailure::RowNotFound) => step matches Step::Done {
                        result: Err(ExpenseError::ExpenseNotFound),
                    },
                    Err(failure) => failed_with(step, failure.message_spec()),
                    Ok(expense) => asks(
                        step,
                        ExpenseRead::Encoding { user_id, expense_id, expense },
                        ExpenseAction::Encode,
                    ),
                }
            },
            (
                ExpenseRead::Encoding { user_id, expense_id, expense },
                ExpenseEvent::Encoded(encoded),
            ) => {
                match encoded {
                    Err(cause) => failed_with(step, cause@),
                    Ok(text) => asks_store(
                        step,
                        ExpenseRead::Keeping { expense },
                        keep_batch(single_expense_key_text(expense_id, user_id), text@),
                    ),
                }
            },
            (ExpenseRead::Keeping { expense }, ExpenseEvent::Store(outcome)) => {
                succeeded_with(step, ExpenseCached { cached: false, expense })
            },
            _ => failed_with(step, "outcome does not answer the pending action"@),
        }
    }

    /// Takes the outcome of the pending action and decides what comes next.
    /// An expense found in the cache is served as it is; otherwise it is
    /// read from the relational store and cached. An expense that the
    /// relational store does not have is reported as not found. No failure
    /// of the key-value store ends the read.
    pub fn step(self, event: ExpenseEvent) -> (step: ExpenseReadStep)
        ensures
            self.next(event, step),
    {
        match (self, event) {
            (ExpenseRead::Looking { user_id, expense_id }, ExpenseEvent::Store(outcome)) => {
                match read_cached(outcome) {
                    Some(cached) => Step::Ask {
                        flow: ExpenseRead::Decoding,
                        action: ExpenseAction::DecodeRow(cached),
                    },
                    None => Step::Ask {
                        flow: ExpenseRead::Loading { user_id, expense_id },
                        action: ExpenseAction::SelectOne { user_id, expense_id },
                    },
                }
            },
            (ExpenseRead::Decoding, ExpenseEvent::DecodedRow(decoded)) => {
                match decoded {
                    Err(cause) => Step::Done { result: Err(ExpenseError::Internal(cause)) },
                    Ok(expense) => Step::Done {
                        result: Ok(ExpenseCached { cached: true, expense }),
                    },
                }
            },
            (ExpenseRead::Loading { user_id, expense_id }, ExpenseEvent::Row(row)) => {
                match row {
                    Err(failure) => {
                        if failure.is_row_not_found() {
                            Step::Done { result: Err(ExpenseError::ExpenseNotFound) }
                        } else {
                            Step::Done {
                                result: Err(ExpenseError::Internal(failure.into_message())),
                            }
                        }
                    },
                    Ok(expense) => Step::Ask {
                        flow: ExpenseRead::Encoding { user_id, expense_id, expense },
                        action: ExpenseAction::Encode,
                    },
                }
            },
            (
                ExpenseRead::Encoding { user_id, expense_id, expense },
                ExpenseEvent::Encoded(encoded),
            ) => {
                match encoded {
                    Err(cause) => Step::Done { result: Err(ExpenseError::Internal(cause)) },
                    Ok(text) => Step::Ask {
                        flow: ExpenseRead::Keeping { expense },
                        action: ExpenseAction::Store(
                            keep_commands(single_expense_key(expense_id, user_id), text),
                        ),
                    },
                }
            },
            (ExpenseRead::Keeping { expense }, ExpenseEvent::Store(_)) => {
                Step::Done { result: Ok(ExpenseCached { cached: false, expense }) }
            },
            _ => Step::Done { result: Err(ExpenseError::Internal(out_of_turn())) },
        }
    }
}

/// Reading the sum of all expenses of a user.
pub enum TotalRead {
    /// The total is being looked up in the cache.
    Looking { user_id: u128 },
    /// The total is being computed by the relational store.
    Summing { user_id: u128 },
    /// The total is being cached.
    Keeping { total: Amount },
}

pub type TotalReadStep = Step<TotalRead, ExpenseAction, Result<Amount, ExpenseError>>;

impl TotalRead {
    /// What a step makes of an outcome, state by state.
    pub open spec fn next(self, event: ExpenseEvent, step: TotalReadStep) -> bool {
        match (self, event) {
            (TotalRead::Looking { user_id }, ExpenseEvent::Store(outcome)) => {
                match found_in(outcome) {
                    Some(text) => match decimal_parse(text) {
                        None => failed_with(step, "cached total is not a decimal number"@),
                        Some((mantissa, scale)) => {
                            &&& step matches Step::Done { result: Ok(total) }
                            &&& total.mantissa == mantissa
                            &&& total.scale == scale
                        },
                    },
                    None => asks(
                        step,
                        TotalRead::Summing { user_id },
                        ExpenseAction::SumAll { user_id },
                    ),
                }
            },
            (TotalRead::Summing { user_id }, ExpenseEvent::Sum(sum)) => {
                match sum {
                    Err(failure) => failed_with(step, failure.message_spec()),
                    Ok(total) => if total.wf() {
                        &&& total.reads_back()
                        &&& asks_store(
                            step,
                            TotalRead::Keeping { total },
                            keep_batch(
                                total_expense_key_text(user_id),
                                decimal_text(total.mantissa as int, total.scale as int),
                            ),
                        )
                    } else {
                        failed_with(step, "total cannot be represented"@)
                    },
                }
            },
            (TotalRead::Keeping { total }, ExpenseEvent::Store(outcome)) => succeeded_with(
                step,
                total,
            ),
            _ => failed_with(step, "outcome does not answer the pending action"@),
        }
    }

    /// Takes the outcome of the pending action and decides what comes next.
    /// A total found in the cache is read as a decimal number; otherwise it
    /// is computed by the relational store and cached as decimal text. No
    /// failure of the key-value store ends the read.
    pub fn step(self, event: ExpenseEvent) -> (step: TotalReadStep)
        ensures
            self.next(event, step),
    {
        match (self, event) {
            (TotalRead::Looking { user_id }, ExpenseEvent::Store(outcome)) => {
                match read_cached(outcome) {
                    Some(text) => match Amount::from_text(text.as_str()) {
                        Err(_) => Step::Done { result: Err(ExpenseError::Internal(bad_total())) },
                        Ok(total) => Step::Done { result: Ok(total) },
                    },
                    None => Step::Ask {
                        flow: TotalRead::Summing { user_id },
                        action: ExpenseAction::SumAll { user_id },
                    },
                }
            },
            (TotalRead::Summing { user_id }, ExpenseEvent::Sum(sum)) => {
                match sum {
                    Err(failure) => Step::Done {
                        result: Err(ExpenseError::Internal(failure.into_message())),
                    },
                    Ok(total) => match total.to_text() {
                        Err(_) => Step::Done {
                            result: Err(ExpenseError::Internal(unwritable_total())),
                        },
                        Ok(text) => Step::Ask {
                            flow: TotalRead::Keeping { total },
                            action: ExpenseAction::Store(
                                keep_commands(total_expense_key(user_id), text),
                            ),
                        },
                    },
                }
            },
            (TotalRead::Keeping { total }, ExpenseEvent::Store(_)) => {
                Step::Done { result: Ok(total) }
            },
            _ => Step::Done { result: Err(ExpenseError::Internal(out_of_turn())) },
        }
    }
}

/// Every batch that the read of a page of expenses sends is one of a read:
/// it bumps no generation and deletes nothing.
pub proof fn law_page_read_sends_reads(
    flow: ExpensePageRead,
    event: ExpenseEvent,
    step: ExpensePageStep,
)
    requires
        flow.next(event, step),
        batch_of(step) is Some,
    ensures
        is_read_traffic(batch_of(step)->Some_0),
{
    let batch = batch_of(step)->Some_0;
    match (flow, event) {
        (ExpensePageRead::Resolving { user_id, page }, ExpenseEvent::Store(outcome)) => {
            let at = step->Ask_flow->Looking_at;
            let sent = Traffic::Lookup { key: at.key_text() };
            assert(sent.is_read() && sent.commands() == batch);
        },
        (ExpensePageRead::Loading { at }, ExpenseEvent::Rows(rows)) => {
            let sent = Traffic::Lookup { key: total_expense_key_text(at.user_id) };
            assert(sent.is_read() && sent.commands() == batch);
        },
        (ExpensePageRead::Summing { at, expenses }, ExpenseEvent::Sum(Ok(total))) => {
            let sent = Traffic::KeepTotal {
                user_id: at.user_id,
                payload: decimal_text(total.mantissa as int, total.scale as int),
            };
            assert(sent.is_read() && sent.commands() == batch);
        },
        (ExpensePageRead::Encoding { at, found }, ExpenseEvent::Encoded(Ok(text))) => {
            let sent = Traffic::KeepPage {
                scope: at.scope,
                user_id: at.user_id,
                generation: at.generation->Some_0@,
                page: at.page as int,
                payload: text@,
            };
            assert(sent.is_read() && sent.commands() == batch);
        },
        _ => {},
    }
}

/// Every batch that the read of a page of a category sends is one of a
/// read.
pub proof fn law_category_read_sends_reads(
    flow: CategoryExpensesRead,
    event: ExpenseEvent,
    step: CategoryExpensesStep,
)
    requires
        flow.next(event, step),
        batch_of(step) is Some,
    ensures
        is_read_traffic(batch_of(step)->Some_0),
{
    let batch = batch_of(step)->Some_0;
    match (flow, event) {
        (
            CategoryExpensesRead::Resolving { user_id, category_id, page },
            ExpenseEvent::Store(outcome),
        ) => {
            let sent = Traffic::Lookup {
                key: category_filter_total_expense_key_text(category_id, user_id),
            };
            assert(sent.is_read() && sent.commands() == batch);
        },
        (CategoryExpensesRead::LookingTotal { category_id, at }, ExpenseEvent::Store(outcome)) => {
            let sent = Traffic::Lookup { key: at.key_text() };
            assert(sent.is_read() && sent.commands() == batch);
        },
        (CategoryExpensesRead::Summing { category_id, at }, ExpenseEvent::Sum(Ok(total))) => {
            let sent = Traffic::KeepCategoryTotal {
                category_id,
                user_id: at.user_id,
                payload: decimal_text(total.mantissa as int, total.scale as int),
            };
            assert(sent.is_read() && sent.commands() == batch);
        },
        (
            CategoryExpensesRead::KeepingTotal { category_id, at, total },
            ExpenseEvent::Store(outcome),
        ) => {
            let sent = Traffic::Lookup { key: at.key_text() };
            assert(sent.is_read() && sent.commands() == batch);
        },
        (
            CategoryExpensesRead::Encoding { at, expenses, total },
            ExpenseEvent::Encoded(Ok(text)),
        ) => {
            let sent = Traffic::KeepPage {
                scope: at.scope,
                user_id: at.user_id,
                generation: at.generation->Some_0@,
                page: at.page as int,
                payload: text@,
            };
            assert(sent.is_read() && sent.commands() == batch);
        },
        _ => {},
    }
}

/// Every batch that the read of one expense sends is one of a read.
pub proof fn law_item_read_sends_reads(
    flow: ExpenseRead,
    event: ExpenseEvent,
    step: ExpenseReadStep,
)
    requires
        flow.next(event, step),
        batch_of(step) is Some,
    ensures
        is_read_traffic(batch_of(step)->Some_0),
{
    let batch = batch_of(step)->Some_0;
    match (flow, event) {
        (
            ExpenseRead::Encoding { user_id, expense_id, expense },
            ExpenseEvent::Encoded(Ok(text)),
        ) => {
            let sent = Traffic::KeepExpense { expense_id, user_id, payload: text@ };
            assert(sent.is_read() && sent.commands() == batch);
        },
        _ => {},
    }
}

/// Every batch that the read of the total sends is one of a read.
pub proof fn law_total_read_sends_reads(flow: TotalRead, event: ExpenseEvent, step: TotalReadStep)
    requires
        flow.next(event, step),
        batch_of(step) is Some,
    ensures
        is_read_traffic(batch_of(step)->Some_0),
{
    let batch = batch_of(step)->Some_0;
    match (flow, event) {
        (TotalRead::Summing { user_id }, ExpenseEvent::Sum(Ok(total))) => {
            let sent = Traffic::KeepTotal {
                user_id,
                payload: decimal_text(total.mantissa as int, total.scale as int),
            };
            assert(sent.is_read() && sent.commands() == batch);
        },
        _ => {},
    }
}

/// No failure of the key-value store ends the read of a page of expenses:
/// whatever batch the store fails on, the read goes on or ends in success.
pub proof fn law_failing_cache_never_fails_page_read(
    flow: ExpensePageRead,
    outcome: crate::cache::Outcome,
    step: ExpensePageStep,
)
    requires
        flow is Resolving || flow is Looking || flow is LookingTotal || flow is KeepingTotal
            || flow is Keeping,
        flow.next(ExpenseEvent::Store(outcome), step),
        outcome is Err,
    ensures
        survives(step),
{
}

/// No failure of the key-value store ends the read of a page of a category.
pub proof fn law_failing_cache_never_fails_category_read(
    flow: CategoryExpensesRead,
    outcome: crate::cache::Outcome,
    step: CategoryExpensesStep,
)
    requires
        flow is Resolving || flow is Looking || flow is LookingTotal || flow is KeepingTotal
            || flow is Keeping,
        flow.next(ExpenseEvent::Store(outcome), step),
        outcome is Err,
    ensures
        survives(step),
{
}

/// No failure of the key-value store ends the read of one expense or of the
/// total.
pub proof fn law_failing_cache_never_fails_item_read(
    item: ExpenseRead,
    total: TotalRead,
    outcome: crate::cache::Outcome,
    item_step: ExpenseReadStep,
    total_step: TotalReadStep,
)
    requires
        item is Looking || item is Keeping,
        total is Looking || total is Keeping,
        item.next(ExpenseEvent::Store(outcome), item_step),
        total.next(ExpenseEvent::Store(outcome), total_step),
        outcome is Err,
    ensures
        item_step is Ask || (item_step is Done && item_step->Done_result is Ok
            && !item_step->Done_result->Ok_0.cached),
        total_step is Ask || (total_step is Done && total_step->Done_result is Ok),
{
}

/// A read of a page with the key-value store out of reach is served by the
/// relational store. Where the store fails on every batch, the read asks
/// for the page, looks the total up in vain, asks for the total, tries in
/// vain to cache it, and ends with the rows and the total that the
/// relational store gave, marked as not served from the cache.
pub proof fn law_page_read_without_cache(
    user_id: u128,
    page: i64,
    causes: Seq<String>,
    expenses: Vec<ExpenseResponse>,
    total: Amount,
    resolved: ExpensePageStep,
    loaded: ExpensePageStep,
    looked: ExpensePageStep,
    summed: ExpensePageStep,
    kept: ExpensePageStep,
)
    requires
        causes.len() == 3,
        total.wf(),
        (ExpensePageRead::Resolving { user_id, page }).next(
            ExpenseEvent::Store(Err(causes[0])),
            resolved,
        ),
        resolved is Ask ==> resolved->Ask_flow.next(ExpenseEvent::Rows(Ok(expenses)), loaded),
        loaded is Ask ==> loaded->Ask_flow.next(ExpenseEvent::Store(Err(causes[1])), looked),
        looked is Ask ==> looked->Ask_flow.next(ExpenseEvent::Sum(Ok(total)), summed),
        summed is Ask ==> summed->Ask_flow.next(ExpenseEvent::Store(Err(causes[2])), kept),
    ensures
        resolved is Ask && resolved->Ask_action == (ExpenseAction::SelectPage {
            user_id,
            limit: PAGE_SIZE,
            offset: page_offset_spec(page as int) as i64,
        }),
        loaded is Ask && looked is Ask && looked->Ask_action == (ExpenseAction::SumAll {
            user_id,
        }),
        summed is Ask,
        succeeded_with(
            kept,
            ExpensesTotalCached {
                expenses_total: ExpensesTotal { expenses, total },
                cached: false,
            },
        ),
{
}

/// A page that the cache holds is served from it: where the lookup finds a
/// payload, the read asks for that payload to be parsed and ends with what
/// was parsed, marked as served from the cache.
pub proof fn law_cached_page_is_served(
    at: PageRef,
    replies: Vec<crate::store::Reply>,
    payload: Seq<char>,
    found: ExpensesTotal,
    looked: ExpensePageStep,
    served: ExpensePageStep,
)
    requires
        crate::cache::payload_in(replies.deep_view()) == Some(payload),
        (ExpensePageRead::Looking { at }).next(ExpenseEvent::Store(Ok(replies)), looked),
        ExpensePageRead::Decoding.next(ExpenseEvent::DecodedPage(Ok(found)), served),
    ensures
        looked is Ask,
        looked->Ask_flow is Decoding,
        looked->Ask_action is DecodePage,
        looked->Ask_action->DecodePage_0@ == payload,
        succeeded_with(served, ExpensesTotalCached { expenses_total: found, cached: true }),
{
}

/// A total that a read has cached reads back as it was. Where one read of
/// a category's page had the total computed and cached it, and a later read
/// finds the text that was cached, the later read goes on with the same
/// total: with no write in between, two reads of the page report the same
/// total.
pub proof fn law_kept_total_reads_back(
    category_id: u128,
    first: PageRef,
    second: PageRef,
    total: Amount,
    replies: Vec<crate::store::Reply>,
    kept: CategoryExpensesStep,
    looked: CategoryExpensesStep,
)
    requires
        total.wf(),
        (CategoryExpensesRead::Summing { category_id, at: first }).next(
            ExpenseEvent::Sum(Ok(total)),
            kept,
        ),
        crate::cache::payload_in(replies.deep_view()) == Some(
            decimal_text(total.mantissa as int, total.scale as int),
        ),
        (CategoryExpensesRead::LookingTotal { category_id, at: second }).next(
            ExpenseEvent::Store(Ok(replies)),
            looked,
        ),
    ensures
        looks_or_loads(looked, category_id, second, total.mantissa as int, total.scale as int),
{
}

/// An expense that was written is read fresh. Let the store carry the
/// invalidation batch of an edit or a removal, whatever it held before, and
/// let it answer the lookup that a read of the expense sends next. The read
/// finds nothing cached and asks the relational store; it ends with the row
/// that the relational store gave, marked as not served from the cache,
/// whether or not the row could be cached.
pub proof fn law_written_expense_is_read_fresh(
    contents: crate::store::Contents,
    category_id: u128,
    user_id: u128,
    expense_id: u128,
    left: Option<u128>,
    replies: Vec<crate::store::Reply>,
    row: ExpenseResponse,
    text: String,
    outcome: crate::cache::Outcome,
    looked: ExpenseReadStep,
    loaded: ExpenseReadStep,
    encoded: ExpenseReadStep,
    kept: ExpenseReadStep,
)
    requires
        replies.deep_view() == crate::store::apply_all(
            crate::store::apply_all(
                contents,
                crate::cache::expense_invalidation(category_id, user_id, Some(expense_id), left),
            ).0,
            lookup_batch(single_expense_key_text(expense_id, user_id)),
        ).1,
        (ExpenseRead::Looking { user_id, expense_id }).next(
            ExpenseEvent::Store(Ok(replies)),
            looked,
        ),
        looked is Ask ==> looked->Ask_flow.next(ExpenseEvent::Row(Ok(row)), loaded),
        loaded is Ask ==> loaded->Ask_flow.next(ExpenseEvent::Encoded(Ok(text)), encoded),
        encoded is Ask ==> encoded->Ask_flow.next(ExpenseEvent::Store(outcome), kept),
    ensures
        asks(
            looked,
            ExpenseRead::Loading { user_id, expense_id },
            ExpenseAction::SelectOne { user_id, expense_id },
        ),
        loaded is Ask && encoded is Ask,
        succeeded_with(kept, ExpenseCached { cached: false, expense: row }),
{
    crate::laws::law_write_clears_cached_expense(contents, category_id, user_id, expense_id, left);
}

} // verus!
