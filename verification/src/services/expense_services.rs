//! Reading and writing a user's expenses.

use vstd::prelude::*;
use crate::cache::{lookup_batch, lookup_commands, resolve_batch, resolve_commands, Outcome};
use crate::errors::expense_errors::ExpenseError;
use crate::errors::store_errors::DbFailure;
use crate::flow::Step;
use crate::keys::{
    single_expense_key, single_expense_key_text, total_expense_key, total_expense_key_text, Scope,
};
use crate::models::amount::Amount;
use crate::models::expense_model::{
    normalize_page, served_page, CategoryIdPath, ExpenseFault, ExpensePath, ExpenseRequest,
    ExpenseResponse, ExpensesTotal, PageParams,
};
use crate::services::expense_reads::{
    CategoryExpensesRead, CategoryExpensesStep, ExpensePageRead, ExpensePageStep, ExpenseRead,
    ExpenseReadStep, TotalRead, TotalReadStep,
};
use crate::services::expense_writes::{
    ExpenseRemoval, ExpenseRemovalStep, ExpenseSave, ExpenseSaveStep,
};
use crate::store::{Command, CommandView};

verus! {

/// What a flow of the expense service asks its caller to do.
pub enum ExpenseAction {
    /// Send the batch to the key-value store, as one atomic unit. Answered
    /// by `ExpenseEvent::Store`.
    Store(Vec<Command>),
    /// Begin a transaction on the relational store. Answered by
    /// `ExpenseEvent::Unit`.
    Begin,
    /// Commit the transaction. Answered by `ExpenseEvent::Unit`.
    Commit,
    /// Insert an expense for the user and return the row. Answered by
    /// `ExpenseEvent::Row`.
    Insert { user_id: u128, expense: ExpenseRequest },
    /// Overwrite the user's expense and return the row, if there is one.
    /// Answered by `ExpenseEvent::MaybeRow`.
    Update { user_id: u128, expense_id: u128, expense: ExpenseRequest },
    /// Read the category that the user's expense stands in, and hold the row
    /// until the transaction ends. Answered by `ExpenseEvent::Category`.
    LocateCategory { user_id: u128, expense_id: u128 },
    /// Delete the user's expense and return its identifier and its category,
    /// if there was one. Answered by `ExpenseEvent::Removed`.
    Remove { user_id: u128, expense_id: u128 },
    /// Select the user's expenses, last updated first, `limit` rows after
    /// the first `offset`. Answered by `ExpenseEvent::Rows`.
    SelectPage { user_id: u128, limit: i64, offset: i64 },
    /// Select the user's expenses in one category, last updated first,
    /// `limit` rows after the first `offset`. Answered by
    /// `ExpenseEvent::Rows`.
    SelectCategoryPage { user_id: u128, category_id: u128, limit: i64, offset: i64 },
    /// Select one expense of the user. Answered by `ExpenseEvent::Row`.
    SelectOne { user_id: u128, expense_id: u128 },
    /// Sum the amounts of the user's expenses. Answered by
    /// `ExpenseEvent::Sum`.
    SumAll { user_id: u128 },
    /// Sum the amounts of the user's expenses in one category. Answered by
    /// `ExpenseEvent::Sum`.
    SumCategory { user_id: u128, category_id: u128 },
    /// Parse the text as a page of expenses with its total. Answered by
    /// `ExpenseEvent::DecodedPage`.
    DecodePage(String),
    /// Parse the text as a list of expenses. Answered by
    /// `ExpenseEvent::DecodedRows`.
    DecodeRows(String),
    /// Parse the text as one expense. Answered by `ExpenseEvent::DecodedRow`.
    DecodeRow(String),
    /// Write the value that the flow holds ready as text. Answered by
    /// `ExpenseEvent::Encoded`.
    Encode,
}

/// What came of an action.
pub enum ExpenseEvent {
    Store(Outcome),
    Unit(Result<(), DbFailure>),
    Row(Result<ExpenseResponse, DbFailure>),
    MaybeRow(Result<Option<ExpenseResponse>, DbFailure>),
    Category(Result<Option<u128>, DbFailure>),
    Removed(Result<Option<(u128, u128)>, DbFailure>),
    Rows(Result<Vec<ExpenseResponse>, DbFailure>),
    Sum(Result<Amount, DbFailure>),
    DecodedPage(Result<ExpensesTotal, String>),
    DecodedRows(Result<Vec<ExpenseResponse>, String>),
    DecodedRow(Result<ExpenseResponse, String>),
    Encoded(Result<String, String>),
}

/// The cause that is logged where a cached total is no decimal number.
pub fn bad_total() -> (cause: String)
    ensures
        cause@ == "cached total is not a decimal number"@,
{
    String::from_str("cached total is not a decimal number")
}

/// The cause that is logged where a total cannot be written as text.
pub fn unwritable_total() -> (cause: String)
    ensures
        cause@ == "total cannot be represented"@,
{
    String::from_str("total cannot be represented")
}

/// The error that a fault of an expense request is reported as.
pub open spec fn fault_error(fault: ExpenseFault, error: ExpenseError) -> bool {
    match fault {
        ExpenseFault::Amount => error is InvalidAmountValue,
        ExpenseFault::DescriptionRequired => error is DescriptionRequired,
        ExpenseFault::DescriptionTooLong => error is DescriptionTooLong,
        ExpenseFault::CategoryRequired => error is CategoryIDRequired,
    }
}

/// Whether a step ended the operation with an internal failure of the given
/// cause.
pub open spec fn failed_with<F, T>(
    step: Step<F, ExpenseAction, Result<T, ExpenseError>>,
    cause: Seq<char>,
) -> bool {
    step matches Step::Done { result: Err(ExpenseError::Internal(text)) } && text@ == cause
}

/// Whether a step ended the operation with the given value.
pub open spec fn succeeded_with<F, T>(
    step: Step<F, ExpenseAction, Result<T, ExpenseError>>,
    value: T,
) -> bool {
    step matches Step::Done { result: Ok(v) } && v == value
}

/// Whether a step goes on with the given flow and the given action.
pub open spec fn asks<F, R>(
    step: Step<F, ExpenseAction, R>,
    flow: F,
    action: ExpenseAction,
) -> bool {
    step matches Step::Ask { flow: f, action: a } && f == flow && a == action
}

/// Whether a step goes on with the given flow and sends the given batch to
/// the key-value store.
pub open spec fn asks_store<F, R>(
    step: Step<F, ExpenseAction, R>,
    flow: F,
    batch: Seq<CommandView>,
) -> bool {
    step matches Step::Ask { flow: f, action } && f == flow && sends(action, batch)
}

/// Whether a step ended the operation with the error that reports the given
/// fault of the request.
pub open spec fn refuses<F, T>(
    step: Step<F, ExpenseAction, Result<T, ExpenseError>>,
    fault: ExpenseFault,
) -> bool {
    step matches Step::Done { result: Err(error) } && fault_error(fault, error)
}

/// The batch that a step sends to the key-value store, if it sends one.
pub open spec fn batch_of<F, R>(step: Step<F, ExpenseAction, R>) -> Option<Seq<CommandView>> {
    match step {
        Step::Ask { flow, action: ExpenseAction::Store(commands) } => Some(commands.deep_view()),
        _ => None,
    }
}

/// Whether an action sends the given batch to the key-value store.
pub open spec fn sends(action: ExpenseAction, batch: Seq<CommandView>) -> bool {
    action matches ExpenseAction::Store(commands) && commands.deep_view() == batch
}

/// The operations on a user's expenses. Each begins a flow: it returns the
/// first action, or the result where the request is refused at once.
pub struct ExpenseServices {}

impl ExpenseServices {
    /// Begins adding an expense: the request is judged first, and a refused
    /// request ends the operation before any store is asked.
    pub fn add_expense(expense: ExpenseRequest, user_id: u128) -> (step: ExpenseSaveStep)
        ensures
            match expense.fault() {
                None => asks(
                    step,
                    ExpenseSave::Beginning { user_id, target: None, expense },
                    ExpenseAction::Begin,
                ),
                Some(fault) => refuses(step, fault),
            },
    {
        match expense.validate() {
            Err(error) => Step::Done { result: Err(error) },
            Ok(_) => Step::Ask {
                flow: ExpenseSave::Beginning { user_id, target: None, expense },
                action: ExpenseAction::Begin,
            },
        }
    }

    /// Begins reading one page of all expenses of a user: the first page
    /// where the request names none before it.
    pub fn get_user_expenses(params: PageParams, user_id: u128) -> (step: ExpensePageStep)
        ensures
            asks_store(
                step,
                ExpensePageRead::Resolving {
                    user_id,
                    page: served_page(params.page as int) as i64,
                },
                resolve_batch(Scope::Expenses, user_id),
            ),
    {
        Step::Ask {
            flow: ExpensePageRead::Resolving { user_id, page: normalize_page(params.page) },
            action: ExpenseAction::Store(resolve_commands(Scope::Expenses, user_id)),
        }
    }

    /// Begins reading one expense of a user.
    pub fn get_single_expense_per_user(path: ExpensePath, user_id: u128) -> (step:
        ExpenseReadStep)
        ensures
            asks_store(
                step,
                ExpenseRead::Looking { user_id, expense_id: path.expense_id },
                lookup_batch(single_expense_key_text(path.expense_id, user_id)),
            ),
    {
        Step::Ask {
            flow: ExpenseRead::Looking { user_id, expense_id: path.expense_id },
            action: ExpenseAction::Store(
                lookup_commands(single_expense_key(path.expense_id, user_id)),
            ),
        }
    }

    /// Begins editing an expense of a user: the request is judged first.
    pub fn edit_expense_per_user(body: ExpenseRequest, path: ExpensePath, user_id: u128) -> (step:
        ExpenseSaveStep)
        ensures
            match body.fault() {
                None => asks(
                    step,
                    ExpenseSave::Beginning {
                        user_id,
                        target: Some(path.expense_id),
                        expense: body,
                    },
                    ExpenseAction::Begin,
                ),
                Some(fault) => refuses(step, fault),
            },
    {
        match body.validate() {
            Err(error) => Step::Done { result: Err(error) },
            Ok(_) => Step::Ask {
                flow: ExpenseSave::Beginning {
                    user_id,
                    target: Some(path.expense_id),
                    expense: body,
                },
                action: ExpenseAction::Begin,
            },
        }
    }

    /// Begins deleting an expense of a user.
    pub fn delete_expense_per_user(path: ExpensePath, user_id: u128) -> (step:
        ExpenseRemovalStep)
        ensures
            asks(
                step,
                ExpenseRemoval::Beginning { user_id, expense_id: path.expense_id },
                ExpenseAction::Begin,
            ),
    {
        Step::Ask {
            flow: ExpenseRemoval::Beginning { user_id, expense_id: path.expense_id },
            action: ExpenseAction::Begin,
        }
    }

    /// Begins reading the sum of all expenses of a user.
    pub fn get_total_of_all_expenses(user_id: u128) -> (step: TotalReadStep)
        ensures
            asks_store(
                step,
                TotalRead::Looking { user_id },
                lookup_batch(total_expense_key_text(user_id)),
            ),
    {
        Step::Ask {
            flow: TotalRead::Looking { user_id },
            action: ExpenseAction::Store(lookup_commands(total_expense_key(user_id))),
        }
    }

    /// Begins reading one page of a user's expenses in one category.
    pub fn filter_expense_by_category_per_user(
        params: PageParams,
        path: CategoryIdPath,
        user_id: u128,
    ) -> (step: CategoryExpensesStep)
        ensures
            asks_store(
                step,
                CategoryExpensesRead::Resolving {
                    user_id,
                    category_id: path.category_id,
                    page: served_page(params.page as int) as i64,
                },
                resolve_batch(Scope::CategoryExpenses { category_id: path.category_id }, user_id),
            ),
    {
        Step::Ask {
            flow: CategoryExpensesRead::Resolving {
                user_id,
                category_id: path.category_id,
                page: normalize_page(params.page),
            },
            action: ExpenseAction::Store(
                resolve_commands(
                    Scope::CategoryExpenses { category_id: path.category_id },
                    user_id,
                ),
            ),
        }
    }
}

} // verus!
