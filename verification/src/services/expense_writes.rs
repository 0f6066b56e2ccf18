//! Writing a user's expenses: the row is written inside a transaction, the
//! cache is invalidated, and only then is the transaction committed.

use vstd::prelude::*;
use crate::cache::{category_left, expense_invalidation, invalidate_expense_cache};
use crate::errors::expense_errors::ExpenseError;
use crate::errors::store_errors::{DbFailure, Violation};
use crate::flow::{out_of_turn, Step};
use crate::ident::{hyphenated, uuid_text};
use crate::keys::Scope;
use crate::models::expense_model::{ExpenseRequest, ExpenseResponse};
use crate::services::expense_services::{
    asks, asks_store, batch_of, failed_with, sends, succeeded_with, ExpenseAction, ExpenseEvent,
};
use crate::traffic::{is_write_traffic, Traffic};

verus! {

/// Adding or editing an expense of a user.
pub enum ExpenseSave {
    /// The transaction is being begun. `target` is the expense to edit, or
    /// `None` to add one.
    Beginning { user_id: u128, target: Option<u128>, expense: ExpenseRequest },
    /// The category that the expense to edit stands in is being read.
    Locating { user_id: u128, expense_id: u128, expense: ExpenseRequest },
    /// The new row is being inserted.
    Inserting { user_id: u128 },
    /// The row is being overwritten. `previous` is the category that the
    /// expense stood in before.
    Updating { user_id: u128, expense_id: u128, previous: u128 },
    /// The cache is being invalidated.
    Invalidating { saved: ExpenseResponse },
    /// The transaction is being committed.
    Committing { saved: ExpenseResponse },
}

pub type ExpenseSaveStep = Step<
    ExpenseSave,
    ExpenseAction,
    Result<ExpenseResponse, ExpenseError>,
>;

/// The failure that a refused insert of an expense is reported as.
pub open spec fn insert_failure(failure: DbFailure, error: ExpenseError) -> bool {
    match failure.violation_spec() {
        Violation::NotNull => error is RequiredFieldMissing,
        Violation::ForeignKey => error is ForeignKeyNotFound,
        _ => error matches ExpenseError::Internal(text) && text@ == failure.message_spec(),
    }
}

/// Whether a step ended the operation because the user has no such
/// expense.
pub open spec fn not_found<F, T>(step: Step<F, ExpenseAction, Result<T, ExpenseError>>) -> bool {
    step matches Step::Done { result: Err(ExpenseError::ExpenseNotFound) }
}

impl ExpenseSave {
    /// What a step makes of an outcome, state by state.
    pub open spec fn next(self, event: ExpenseEvent, step: ExpenseSaveStep) -> bool {
        match (self, event) {
            (ExpenseSave::Beginning { user_id, target, expense }, ExpenseEvent::Unit(begun)) => {
                match begun {
                    Err(failure) => failed_with(step, failure.message_spec()),
                    Ok(_) => match target {
                        None => asks(
                            step,
                            ExpenseSave::Inserting { user_id },
                            ExpenseAction::Insert { user_id, expense },
                        ),
                        Some(expense_id) => asks(
                            step,
                            ExpenseSave::Locating { user_id, expense_id, expense },
                            ExpenseAction::LocateCategory { user_id, expense_id },
                        ),
                    },
                }
            },
            (
                ExpenseSave::Locating { user_id, expense_id, expense },
                ExpenseEvent::Category(located),
            ) => {
                match located {
                    Err(failure) => failed_with(step, failure.message_spec()),
                    Ok(None) => not_found(step),
                    Ok(Some(previous)) => asks(
                        step,
                        ExpenseSave::Updating { user_id, expense_id, previous },
                        ExpenseAction::Update { user_id, expense_id, expense },
                    ),
                }
            },
            (ExpenseSave::Inserting { user_id }, ExpenseEvent::Row(row)) => {
                match row {
                    Err(failure) => step matches Step::Done { result: Err(error) }
                        && insert_failure(failure, error),
                    Ok(saved) => asks_store(
                        step,
                        ExpenseSave::Invalidating { saved },
                        expense_invalidation(saved.category_id, user_id, None, None),
                    ),
                }
            },
            (
                ExpenseSave::Updating { user_id, expense_id, previous },
                ExpenseEvent::MaybeRow(row),
            ) => {
                match row {
                    Err(failure) => failed_with(step, failure.message_spec()),
                    Ok(None) => not_found(step),
                    Ok(Some(saved)) => asks_store(
                        step,
                        ExpenseSave::Invalidating { saved },
                        expense_invalidation(
                            saved.category_id,
                            user_id,
                            Some(expense_id),
                            category_left(previous, saved.category_id),
                        ),
                    ),
                }
            },
            (ExpenseSave::Invalidating { saved }, ExpenseEvent::Store(outcome)) => {
                match outcome {
                    Err(cause) => failed_with(step, cause@),
                    Ok(_) => asks(step, ExpenseSave::Committing { saved }, ExpenseAction::Commit),
                }
            },
            (ExpenseSave::Committing { saved }, ExpenseEvent::Unit(committed)) => {
                match committed {
                    Err(failure) => failed_with(step, failure.message_spec()),
                    Ok(_) => succeeded_with(step, saved),
                }
            },
            _ => failed_with(step, "outcome does not answer the pending action"@),
        }
    }

    /// Takes the outcome of the pending action and decides what comes next.
    /// An edit first reads the category that the expense stands in, so that
    /// an edit which moves the expense invalidates the category it leaves
    /// as well as the one it enters. The write is committed only after the
    /// store has carried out the invalidation: where the invalidation
    /// fails, the operation ends and the transaction is never committed.
    pub fn step(self, event: ExpenseEvent) -> (step: ExpenseSaveStep)
        ensures
            self.next(event, step),
    {
        match (self, event) {
            (ExpenseSave::Beginning { user_id, target, expense }, ExpenseEvent::Unit(begun)) => {
                match begun {
                    Err(failure) => Step::Done {
                        result: Err(ExpenseError::Internal(failure.into_message())),
                    },
                    Ok(_) => match target {
                        None => Step::Ask {
                            flow: ExpenseSave::Inserting { user_id },
                            action: ExpenseAction::Insert { user_id, expense },
                        },
                        Some(expense_id) => Step::Ask {
                            flow: ExpenseSave::Locating { user_id, expense_id, expense },
                            action: ExpenseAction::LocateCategory { user_id, expense_id },
                        },
                    },
                }
            },
            (
                ExpenseSave::Locating { user_id, expense_id, expense },
                ExpenseEvent::Category(located),
            ) => {
                match located {
                    Err(failure) => Step::Done {
                        result: Err(ExpenseError::Internal(failure.into_message())),
                    },
                    Ok(None) => Step::Done { result: Err(ExpenseError::ExpenseNotFound) },
                    Ok(Some(previous)) => Step::Ask {
                        flow: ExpenseSave::Updating { user_id, expense_id, previous },
                        action: ExpenseAction::Update { user_id, expense_id, expense },
                    },
                }
            },
            (ExpenseSave::Inserting { user_id }, ExpenseEvent::Row(row)) => {
                match row {
                    Err(failure) => match failure.violation() {
                        Violation::NotNull => Step::Done {
                            result: Err(ExpenseError::RequiredFieldMissing),
                        },
                        Violation::ForeignKey => Step::Done {
                            result: Err(ExpenseError::ForeignKeyNotFound),
                        },
                        _ => Step::Done {
                            result: Err(ExpenseError::Internal(failure.into_message())),
                        },
                    },
                    Ok(saved) => {
                        let batch = invalidate_expense_cache(
                            saved.category_id,
                            user_id,
                            None,
                            None,
                        );
                        Step::Ask {
                            flow: ExpenseSave::Invalidating { saved },
                            action: ExpenseAction::Store(batch),
                        }
                    },
                }
            },
            (
                ExpenseSave::Updating { user_id, expense_id, previous },
                ExpenseEvent::MaybeRow(row),
            ) => {
                match row {
                    Err(failure) => Step::Done {
                        result: Err(ExpenseError::Internal(failure.into_message())),
                    },
                    Ok(None) => Step::Done { result: Err(ExpenseError::ExpenseNotFound) },
                    Ok(Some(saved)) => {
                        let left = if previous == saved.category_id {
                            None
                        } else {
                            Some(previous)
                        };
                        let batch = invalidate_expense_cache(
                            saved.category_id,
                            user_id,
                            Some(expense_id),
                            left,
                        );
                        Step::Ask {
                            flow: ExpenseSave::Invalidating { saved },
                            action: ExpenseAction::Store(batch),
                        }
                    },
                }
            },
            (ExpenseSave::Invalidating { saved }, ExpenseEvent::Store(outcome)) => {
                match outcome {
                    Err(cause) => Step::Done { result: Err(ExpenseError::Internal(cause)) },
                    Ok(_) => Step::Ask {
                        flow: ExpenseSave::Committing { saved },
                        action: ExpenseAction::Commit,
                    },
                }
            },
            (ExpenseSave::Committing { saved }, ExpenseEvent::Unit(committed)) => {
                match committed {
                    Err(failure) => Step::Done {
                        result: Err(ExpenseError::Internal(failure.into_message())),
                    },
                    Ok(_) => Step::Done { result: Ok(saved) },
                }
            },
            _ => Step::Done { result: Err(ExpenseError::Internal(out_of_turn())) },
        }
    }
}

/// Deleting an expense of a user.
pub enum ExpenseRemoval {
    /// The transaction is being begun.
    Beginning { user_id: u128, expense_id: u128 },
    /// The row is being deleted.
    Removing { user_id: u128, expense_id: u128 },
    /// The cache is being invalidated.
    Invalidating { removed: u128 },
    /// The transaction is being committed.
    Committing { removed: u128 },
}

pub type ExpenseRemovalStep = Step<
    ExpenseRemoval,
    ExpenseAction,
    Result<String, ExpenseError>,
>;

impl ExpenseRemoval {
    /// What a step makes of an outcome, state by state.
    pub open spec fn next(self, event: ExpenseEvent, step: ExpenseRemovalStep) -> bool {
        match (self, event) {
            (ExpenseRemoval::Beginning { user_id, expense_id }, ExpenseEvent::Unit(begun)) => {
                match begun {
                    Err(failure) => failed_with(step, failure.message_spec()),
                    Ok(_) => asks(
                        step,
                        ExpenseRemoval::Removing { user_id, expense_id },
                        ExpenseAction::Remove { user_id, expense_id },
                    ),
                }
            },
            (ExpenseRemoval::Removing { user_id, expense_id }, ExpenseEvent::Removed(row)) => {
                match row {
                    Err(failure) => failed_with(step, failure.message_spec()),
                    Ok(None) => step matches Step::Done {
                        result: Err(ExpenseError::ExpenseNotFound),
                    },
                    Ok(Some((removed, category_id))) => {
                        &&& step matches Step::Ask { flow, action }
                        &&& flow == (ExpenseRemoval::Invalidating { removed })
                        &&& sends(
                            action,
                            expense_invalidation(category_id, user_id, Some(expense_id), None),
                        )
                    },
                }
            },
            (ExpenseRemoval::Invalidating { removed }, ExpenseEvent::Store(outcome)) => {
                match outcome {
                    Err(cause) => failed_with(step, cause@),
                    Ok(_) => asks(
                        step,
                        ExpenseRemoval::Committing { removed },
                        ExpenseAction::Commit,
                    ),
                }
            },
            (ExpenseRemoval::Committing { removed }, ExpenseEvent::Unit(committed)) => {
                match committed {
                    Err(failure) => failed_with(step, failure.message_spec()),
                    Ok(_) => step matches Step::Done { result: Ok(text) } && text@ == uuid_text(
                        removed,
                    ),
                }
            },
            _ => failed_with(step, "outcome does not answer the pending action"@),
        }
    }

    /// Takes the outcome of the pending action and decides what comes next.
    /// The result is the identifier of the deleted expense, as text.
    pub fn step(self, event: ExpenseEvent) -> (step: ExpenseRemovalStep)
        ensures
            self.next(event, step),
    {
        match (self, event) {
            (ExpenseRemoval::Beginning { user_id, expense_id }, ExpenseEvent::Unit(begun)) => {
                match begun {
                    Err(failure) => Step::Done {
                        result: Err(ExpenseError::Internal(failure.into_message())),
                    },
                    Ok(_) => Step::Ask {
                        flow: ExpenseRemoval::Removing { user_id, expense_id },
                        action: ExpenseAction::Remove { user_id, expense_id },
                    },
                }
            },
            (ExpenseRemoval::Removing { user_id, expense_id }, ExpenseEvent::Removed(row)) => {
                match row {
                    Err(failure) => Step::Done {
                        result: Err(ExpenseError::Internal(failure.into_message())),
                    },
                    Ok(None) => Step::Done { result: Err(ExpenseError::ExpenseNotFound) },
                    Ok(Some((removed, category_id))) => Step::Ask {
                        flow: ExpenseRemoval::Invalidating { removed },
                        action: ExpenseAction::Store(
                            invalidate_expense_cache(category_id, user_id, Some(expense_id), None),
                        ),
                    },
                }
            },
            (ExpenseRemoval::Invalidating { removed }, ExpenseEvent::Store(outcome)) => {
                match outcome {
                    Err(cause) => Step::Done { result: Err(ExpenseError::Internal(cause)) },
                    Ok(_) => Step::Ask {
                        flow: ExpenseRemoval::Committing { removed },
                        action: ExpenseAction::Commit,
                    },
                }
            },
            (ExpenseRemoval::Committing { removed }, ExpenseEvent::Unit(committed)) => {
                match committed {
                    Err(failure) => Step::Done {
                        result: Err(ExpenseError::Internal(failure.into_message())),
                    },
                    Ok(_) => Step::Done { result: Ok(hyphenated(removed)) },
                }
            },
            _ => Step::Done { result: Err(ExpenseError::Internal(out_of_turn())) },
        }
    }
}

/// Every batch that the adding of an expense sends is the invalidation of
/// a write to the list of all expenses of the user and to the list of the
/// category of the new expense.
pub proof fn law_insert_sends_invalidation(
    user_id: u128,
    saved: ExpenseResponse,
    step: ExpenseSaveStep,
)
    requires
        (ExpenseSave::Inserting { user_id }).next(ExpenseEvent::Row(Ok(saved)), step),
    ensures
        batch_of(step) is Some,
        is_write_traffic(batch_of(step)->Some_0, Scope::Expenses, user_id),
        is_write_traffic(
            batch_of(step)->Some_0,
            Scope::CategoryExpenses { category_id: saved.category_id },
            user_id,
        ),
{
    let sent = Traffic::WriteExpense {
        category_id: saved.category_id,
        user_id,
        item: None,
        left: None,
    };
    assert(sent.writes_to(Scope::Expenses, user_id));
    assert(sent.writes_to(Scope::CategoryExpenses { category_id: saved.category_id }, user_id));
    assert(sent.commands() == batch_of(step)->Some_0);
}

/// An edit invalidates every scope it affects: the batch that it sends is
/// the invalidation of a write to the list of all expenses of the user, to
/// the list of the category that the expense stands in after the edit, and
/// to the list of the category that it stood in before.
pub proof fn law_edit_invalidates_both_categories(
    user_id: u128,
    expense_id: u128,
    previous: u128,
    saved: ExpenseResponse,
    step: ExpenseSaveStep,
)
    requires
        (ExpenseSave::Updating { user_id, expense_id, previous }).next(
            ExpenseEvent::MaybeRow(Ok(Some(saved))),
            step,
        ),
    ensures
        batch_of(step) is Some,
        is_write_traffic(batch_of(step)->Some_0, Scope::Expenses, user_id),
        is_write_traffic(
            batch_of(step)->Some_0,
            Scope::CategoryExpenses { category_id: saved.category_id },
            user_id,
        ),
        is_write_traffic(
            batch_of(step)->Some_0,
            Scope::CategoryExpenses { category_id: previous },
            user_id,
        ),
{
    let sent = Traffic::WriteExpense {
        category_id: saved.category_id,
        user_id,
        item: Some(expense_id),
        left: category_left(previous, saved.category_id),
    };
    assert(sent.writes_to(Scope::Expenses, user_id));
    assert(sent.writes_to(Scope::CategoryExpenses { category_id: saved.category_id }, user_id));
    assert(sent.writes_to(Scope::CategoryExpenses { category_id: previous }, user_id));
    assert(sent.commands() == batch_of(step)->Some_0);
}

/// The saving of an expense sends a batch to the key-value store at two
/// steps only: after the insert and after the update.
pub proof fn law_save_sends_invalidation(
    flow: ExpenseSave,
    event: ExpenseEvent,
    step: ExpenseSaveStep,
)
    requires
        flow.next(event, step),
        batch_of(step) is Some,
    ensures
        (flow is Inserting && event matches ExpenseEvent::Row(Ok(_))) || (flow is Updating
            && event matches ExpenseEvent::MaybeRow(Ok(Some(_)))),
{
}

/// Every batch that the removal of an expense sends is the invalidation of
/// a write to the list of all expenses of the user.
pub proof fn law_removal_sends_invalidation(
    flow: ExpenseRemoval,
    event: ExpenseEvent,
    step: ExpenseRemovalStep,
)
    requires
        flow.next(event, step),
        batch_of(step) is Some,
    ensures
        flow is Removing,
        is_write_traffic(batch_of(step)->Some_0, Scope::Expenses, flow->Removing_user_id),
{
    match (flow, event) {
        (
            ExpenseRemoval::Removing { user_id, expense_id },
            ExpenseEvent::Removed(Ok(Some((removed, category_id)))),
        ) => {
            let sent = Traffic::WriteExpense {
                category_id,
                user_id,
                item: Some(expense_id),
                left: None,
            };
            assert(sent.writes_to(Scope::Expenses, user_id));
            assert(sent.commands() == batch_of(step)->Some_0);
        },
        _ => {},
    }
}

/// Whether an outcome reports that the relational store failed, or that
/// it found no row to write.
pub open spec fn reports_no_write(event: ExpenseEvent) -> bool {
    match event {
        ExpenseEvent::Unit(Err(_)) => true,
        ExpenseEvent::Row(Err(_)) => true,
        ExpenseEvent::MaybeRow(Err(_)) => true,
        ExpenseEvent::MaybeRow(Ok(None)) => true,
        ExpenseEvent::Category(Err(_)) => true,
        ExpenseEvent::Category(Ok(None)) => true,
        ExpenseEvent::Removed(Err(_)) => true,
        ExpenseEvent::Removed(Ok(None)) => true,
        _ => false,
    }
}

/// A failed write invalidates nothing: where the relational store fails or
/// finds no row, the saving of an expense ends at once, and sends no batch
/// to the key-value store.
pub proof fn law_failed_save_invalidates_nothing(
    flow: ExpenseSave,
    event: ExpenseEvent,
    step: ExpenseSaveStep,
)
    requires
        flow.next(event, step),
        reports_no_write(event),
    ensures
        step is Done,
        step->Done_result is Err,
{
}

/// A failed write invalidates nothing: where the relational store fails or
/// finds no row, the removal of an expense ends at once, and sends no batch
/// to the key-value store.
pub proof fn law_failed_removal_invalidates_nothing(
    flow: ExpenseRemoval,
    event: ExpenseEvent,
    step: ExpenseRemovalStep,
)
    requires
        flow.next(event, step),
        reports_no_write(event),
    ensures
        step is Done,
        step->Done_result is Err,
{
}

/// A write whose invalidation fails is never committed: the saving of an
/// expense ends with an internal failure that bears the cause, and the
/// commit is not asked for.
pub proof fn law_failed_invalidation_ends_save(
    saved: ExpenseResponse,
    cause: String,
    step: ExpenseSaveStep,
)
    requires
        (ExpenseSave::Invalidating { saved }).next(ExpenseEvent::Store(Err(cause)), step),
    ensures
        failed_with(step, cause@),
{
}

/// A write whose invalidation fails is never committed: the removal of an
/// expense ends with an internal failure that bears the cause, and the
/// commit is not asked for.
pub proof fn law_failed_invalidation_ends_removal(
    removed: u128,
    cause: String,
    step: ExpenseRemovalStep,
)
    requires
        (ExpenseRemoval::Invalidating { removed }).next(ExpenseEvent::Store(Err(cause)), step),
    ensures
        failed_with(step, cause@),
{
}

} // verus!
