//! Reading and writing a user's categories.

use vstd::prelude::*;
use crate::cache::{
    category_invalidation, found_in, invalidate_category_cache, keep_batch, keep_commands,
    lookup_batch, lookup_commands, read_cached, read_generation, resolve_batch,
    resolve_commands, resolved_in, Outcome,
};
use crate::errors::category_errors::CategoryError;
use crate::errors::store_errors::{DbFailure, Violation};
use crate::flow::{out_of_turn, Step};
use crate::keys::{PageRef, Scope};
use crate::traffic::{is_read_traffic, is_write_traffic, Traffic};
use crate::models::category_models::{
    CategoriesCached, Category, CategoryPagination, CategoryResponse, NameFault,
};
use crate::models::expense_model::{
    normalize_page, page_offset, page_offset_spec, served_page, PAGE_SIZE,
};
use crate::store::{Command, CommandView};

verus! {

/// What a flow of the category service asks its caller to do.
pub enum CategoryAction {
    /// Send the batch to the key-value store, as one atomic unit. Answered
    /// by `CategoryEvent::Store`.
    Store(Vec<Command>),
    /// Begin a transaction on the relational store. Answered by
    /// `CategoryEvent::Unit`.
    Begin,
    /// Commit the transaction. Answered by `CategoryEvent::Unit`.
    Commit,
    /// Insert a category for the user and return the row. Answered by
    /// `CategoryEvent::Row`.
    Insert { user_id: u128, category: Category },
    /// Select the user's categories, last updated first, `limit` rows after
    /// the first `offset`. Answered by `CategoryEvent::Rows`.
    SelectPage { user_id: u128, limit: i64, offset: i64 },
    /// Parse the text as a list of categories. Answered by
    /// `CategoryEvent::Decoded`.
    Decode(String),
    /// Write the list that the flow holds ready as text. Answered by
    /// `CategoryEvent::Encoded`.
    Encode,
}

/// What came of an action.
pub enum CategoryEvent {
    Store(Outcome),
    Unit(Result<(), DbFailure>),
    Row(Result<CategoryResponse, DbFailure>),
    Rows(Result<Vec<CategoryResponse>, DbFailure>),
    Decoded(Result<Vec<CategoryResponse>, String>),
    Encoded(Result<String, String>),
}

/// Whether a step ended the operation with an internal failure of the given
/// cause.
pub open spec fn failed_with<F, T>(
    step: Step<F, CategoryAction, Result<T, CategoryError>>,
    cause: Seq<char>,
) -> bool {
    step matches Step::Done { result: Err(CategoryError::Internal(text)) } && text@ == cause
}

/// Whether a step ended the operation with the given value.
pub open spec fn succeeded_with<F, T>(
    step: Step<F, CategoryAction, Result<T, CategoryError>>,
    value: T,
) -> bool {
    step matches Step::Done { result: Ok(v) } && v == value
}

/// Whether a step goes on with the given flow and the given action.
pub open spec fn asks<F, R>(
    step: Step<F, CategoryAction, R>,
    flow: F,
    action: CategoryAction,
) -> bool {
    step matches Step::Ask { flow: f, action: a } && f == flow && a == action
}

/// Whether a step goes on with the given flow and sends the given batch to
/// the key-value store.
pub open spec fn asks_store<F, R>(
    step: Step<F, CategoryAction, R>,
    flow: F,
    batch: Seq<CommandView>,
) -> bool {
    step matches Step::Ask { flow: f, action } && f == flow && sends(action, batch)
}

/// Whether a step ended the operation with the error that reports the given
/// fault of the name.
pub open spec fn refuses<F, T>(
    step: Step<F, CategoryAction, Result<T, CategoryError>>,
    fault: NameFault,
) -> bool {
    step matches Step::Done { result: Err(error) } && fault_error(fault, error)
}

/// The batch that a step sends to the key-value store, if it sends one.
pub open spec fn batch_of<F, R>(step: Step<F, CategoryAction, R>) -> Option<Seq<CommandView>> {
    match step {
        Step::Ask { flow, action: CategoryAction::Store(commands) } => Some(commands.deep_view()),
        _ => None,
    }
}

/// Whether an action sends the given batch to the key-value store.
pub open spec fn sends(action: CategoryAction, batch: Seq<CommandView>) -> bool {
    action matches CategoryAction::Store(commands) && commands.deep_view() == batch
}

/// The error that a fault of a category name is reported as.
pub open spec fn fault_error(fault: NameFault, error: CategoryError) -> bool {
    match fault {
        NameFault::Required => error is NameRequired,
        NameFault::TooShort => error is NameTooShort,
        NameFault::TooLong => error is NameTooLong,
    }
}

/// The select of one page of the categories of a user.
pub open spec fn page_select(at: PageRef) -> CategoryAction {
    CategoryAction::SelectPage {
        user_id: at.user_id,
        limit: PAGE_SIZE,
        offset: page_offset_spec(at.page as int) as i64,
    }
}

/// Reading one page of a user's categories. As with every read, no failure
/// of the key-value store ends it.
pub enum CategoryPageRead {
    /// The generation of the list is being resolved.
    Resolving { user_id: u128, page: i64 },
    /// The page is being looked up in the cache.
    Looking { at: PageRef },
    /// The cached page is being parsed.
    Decoding,
    /// The page is being read from the relational store.
    Loading { at: PageRef },
    /// The page is being written as text.
    Encoding { at: PageRef, categories: Vec<CategoryResponse> },
    /// The page is being cached.
    Keeping { categories: Vec<CategoryResponse> },
}

pub type CategoryPageStep = Step<
    CategoryPageRead,
    CategoryAction,
    Result<CategoriesCached, CategoryError>,
>;

impl CategoryPageRead {
    /// The value that the flow holds ready to be written as text.
    pub open spec fn ready(self) -> Option<Vec<CategoryResponse>> {
        match self {
            CategoryPageRead::Encoding { at, categories } => Some(categories),
            _ => None,
        }
    }

    /// The value that `CategoryAction::Encode` asks to be written as text.
    pub fn pending(&self) -> (value: Option<&Vec<CategoryResponse>>)
        ensures
            match value {
                Some(held) => self.ready() == Some(*held),
                None => self.ready() is None,
            },
    {
        match self {
            CategoryPageRead::Encoding { at: _, categories } => Some(categories),
            _ => None,
        }
    }

    /// What a step makes of an outcome, state by state.
    pub open spec fn next(self, event: CategoryEvent, step: CategoryPageStep) -> bool {
        match (self, event) {
            (CategoryPageRead::Resolving { user_id, page }, CategoryEvent::Store(outcome)) => {
                match resolved_in(outcome) {
                    Some(generation) => {
                        &&& step matches Step::Ask {
                            flow: CategoryPageRead::Looking { at },
                            action,
                        }
                        &&& at.names(Scope::Categories, user_id, Some(generation), page)
                        &&& sends(action, lookup_batch(at.key_text()))
                    },
                    None => {
                        &&& step matches Step::Ask {
                            flow: CategoryPageRead::Loading { at },
                            action,
                        }
                        &&& at.names(Scope::Categories, user_id, None, page)
                        &&& action == page_select(at)
                    },
                }
            },
            (CategoryPageRead::Looking { at }, CategoryEvent::Store(outcome)) => {
                match found_in(outcome) {
                    Some(text) => {
                        &&& step matches Step::Ask {
                            flow: CategoryPageRead::Decoding,
                            action: CategoryAction::Decode(cached),
                        }
                        &&& cached@ == text
                    },
                    None => asks(step, CategoryPageRead::Loading { at }, page_select(at)),
                }
            },
            (CategoryPageRead::Decoding, CategoryEvent::Decoded(decoded)) => {
                match decoded {
                    Err(cause) => failed_with(step, cause@),
                    Ok(categories) => succeeded_with(
                        step,
                        CategoriesCached { cached: true, categories },
                    ),
                }
            },
            (CategoryPageRead::Loading { at }, CategoryEvent::Rows(rows)) => {
                match rows {
                    Err(failure) => failed_with(step, failure.message_spec()),
                    Ok(categories) => if at.generation is Some {
                        asks(
                            step,
                            CategoryPageRead::Encoding { at, categories },
                            CategoryAction::Encode,
                        )
                    } else {
                        succeeded_with(step, CategoriesCached { cached: false, categories })
                    },
                }
            },
            (CategoryPageRead::Encoding { at, categories }, CategoryEvent::Encoded(encoded)) => {
                match encoded {
                    Err(cause) => failed_with(step, cause@),
                    Ok(text) => if at.generation is Some {
                        asks_store(
                            step,
                            CategoryPageRead::Keeping { categories },
                            keep_batch(at.key_text(), text@),
                        )
                    } else {
                        succeeded_with(step, CategoriesCached { cached: false, categories })
                    },
                }
            },
            (CategoryPageRead::Keeping { categories }, CategoryEvent::Store(outcome)) => {
                succeeded_with(step, CategoriesCached { cached: false, categories })
            },
            _ => failed_with(step, "outcome does not answer the pending action"@),
        }
    }

    /// Takes the outcome of the pending action and decides what comes next.
    /// No failure of the key-value store ends the read: a generation that
    /// cannot be resolved means a read without the cache, a lookup that
    /// fails counts as one that found nothing, and what cannot be cached is
    /// served all the same.
    pub fn step(self, event: CategoryEvent) -> (step: CategoryPageStep)
        ensures
            self.next(event, step),
    {
        match (self, event) {
            (CategoryPageRead::Resolving { user_id, page }, CategoryEvent::Store(outcome)) => {
                match read_generation(outcome) {
                    Some(generation) => {
                        let key = Scope::Categories.page_key(user_id, generation.as_str(), page);
                        let at = PageRef {
                            scope: Scope::Categories,
                            user_id,
                            generation: Some(generation),
                            page,
                        };
                        Step::Ask {
                            flow: CategoryPageRead::Looking { at },
                            action: CategoryAction::Store(lookup_commands(key)),
                        }
                    },
                    None => {
                        let at = PageRef {
                            scope: Scope::Categories,
                            user_id,
                            generation: None,
                            page,
                        };
                        let action = CategoryAction::SelectPage {
                            user_id,
                            limit: PAGE_SIZE,
                            offset: page_offset(page),
                        };
                        Step::Ask { flow: CategoryPageRead::Loading { at }, action }
                    },
                }
            },
            (CategoryPageRead::Looking { at }, CategoryEvent::Store(outcome)) => {
                match read_cached(outcome) {
                    Some(cached) => Step::Ask {
                        flow: CategoryPageRead::Decoding,
                        action: CategoryAction::Decode(cached),
                    },
                    None => {
                        let action = CategoryAction::SelectPage {
                            user_id: at.user_id,
                            limit: PAGE_SIZE,
                            offset: page_offset(at.page),
                        };
                        Step::Ask { flow: CategoryPageRead::Loading { at }, action }
                    },
                }
            },
            (CategoryPageRead::Decoding, CategoryEvent::Decoded(decoded)) => {
                match decoded {
                    Err(cause) => Step::Done { result: Err(CategoryError::Internal(cause)) },
                    Ok(categories) => Step::Done {
                        result: Ok(CategoriesCached { cached: true, categories }),
                    },
                }
            },
            (CategoryPageRead::Loading { at }, CategoryEvent::Rows(rows)) => {
                match rows {
                    Err(failure) => Step::Done {
                        result: Err(CategoryError::Internal(failure.into_message())),
                    },
                    Ok(categories) => {
                        if at.generation.is_some() {
                            Step::Ask {
                                flow: CategoryPageRead::Encoding { at, categories },
                                action: CategoryAction::Encode,
                            }
                        } else {
                            Step::Done {
                                result: Ok(CategoriesCached { cached: false, categories }),
                            }
                        }
                    },
                }
            },
            (CategoryPageRead::Encoding { at, categories }, CategoryEvent::Encoded(encoded)) => {
                match encoded {
                    Err(cause) => Step::Done { result: Err(CategoryError::Internal(cause)) },
                    Ok(text) => match at.key() {
                        Some(key) => Step::Ask {
                            flow: CategoryPageRead::Keeping { categories },
                            action: CategoryAction::Store(keep_commands(key, text)),
                        },
                        None => Step::Done {
                            result: Ok(CategoriesCached { cached: false, categories }),
                        },
                    },
                }
            },
            (CategoryPageRead::Keeping { categories }, CategoryEvent::Store(_)) => {
                Step::Done { result: Ok(CategoriesCached { cached: false, categories }) }
            },
            _ => Step::Done { result: Err(CategoryError::Internal(out_of_turn())) },
        }
    }
}

/// Adding a category for a user.
pub enum CategorySave {
    /// The transaction is being begun.
    Beginning { user_id: u128, category: Category },
    /// The row is being written.
    Writing { user_id: u128 },
    /// The cache is being invalidated.
    Invalidating { saved: CategoryResponse },
    /// The transaction is being committed.
    Committing { saved: CategoryResponse },
}

pub type CategorySaveStep = Step<
    CategorySave,
    CategoryAction,
    Result<CategoryResponse, CategoryError>,
>;

impl CategorySave {
    /// What a step makes of an outcome, state by state.
    pub open spec fn next(self, event: CategoryEvent, step: CategorySaveStep) -> bool {
        match (self, event) {
            (CategorySave::Beginning { user_id, category }, CategoryEvent::Unit(begun)) => {
                match begun {
                    Err(failure) => failed_with(step, failure.message_spec()),
                    Ok(_) => asks(
                        step,
                        CategorySave::Writing { user_id },
                        CategoryAction::Insert { user_id, category },
                    ),
                }
            },
            (CategorySave::Writing { user_id }, CategoryEvent::Row(row)) => {
                match row {
                    Err(failure) => if failure.violation_spec() == Violation::Unique {
                        step matches Step::Done { result: Err(CategoryError::NameExisting) }
                    } else {
                        failed_with(step, failure.message_spec())
                    },
                    Ok(saved) => {
                        &&& step matches Step::Ask { flow, action }
                        &&& flow == (CategorySave::Invalidating { saved })
                        &&& sends(action, category_invalidation(user_id))
                    },
                }
            },
            (CategorySave::Invalidating { saved }, CategoryEvent::Store(outcome)) => {
                match outcome {
                    Err(cause) => failed_with(step, cause@),
                    Ok(_) => asks(step, CategorySave::Committing { saved }, CategoryAction::Commit),
                }
            },
            (CategorySave::Committing { saved }, CategoryEvent::Unit(committed)) => {
                match committed {
                    Err(failure) => failed_with(step, failure.message_spec()),
                    Ok(_) => succeeded_with(step, saved),
                }
            },
            _ => failed_with(step, "outcome does not answer the pending action"@),
        }
    }

    /// Takes the outcome of the pending action and decides what comes next.
    /// The write is committed only after the store has carried out the
    /// invalidation.
    pub fn step(self, event: CategoryEvent) -> (step: CategorySaveStep)
        ensures
            self.next(event, step),
    {
        match (self, event) {
            (CategorySave::Beginning { user_id, category }, CategoryEvent::Unit(begun)) => {
                match begun {
                    Err(failure) => Step::Done {
                        result: Err(CategoryError::Internal(failure.into_message())),
                    },
                    Ok(_) => Step::Ask {
                        flow: CategorySave::Writing { user_id },
                        action: CategoryAction::Insert { user_id, category },
                    },
                }
            },
            (CategorySave::Writing { user_id }, CategoryEvent::Row(row)) => {
                match row {
                    Err(failure) => match failure.violation() {
                        Violation::Unique => Step::Done {
                            result: Err(CategoryError::NameExisting),
                        },
                        _ => Step::Done {
                            result: Err(CategoryError::Internal(failure.into_message())),
                        },
                    },
                    Ok(saved) => Step::Ask {
                        flow: CategorySave::Invalidating { saved },
                        action: CategoryAction::Store(invalidate_category_cache(user_id)),
                    },
                }
            },
            (CategorySave::Invalidating { saved }, CategoryEvent::Store(outcome)) => {
                match outcome {
                    Err(cause) => Step::Done { result: Err(CategoryError::Internal(cause)) },
                    Ok(_) => Step::Ask {
                        flow: CategorySave::Committing { saved },
                        action: CategoryAction::Commit,
                    },
                }
            },
            (CategorySave::Committing { saved }, CategoryEvent::Unit(committed)) => {
                match committed {
                    Err(failure) => Step::Done {
                        result: Err(CategoryError::Internal(failure.into_message())),
                    },
                    Ok(_) => Step::Done { result: Ok(saved) },
                }
            },
            _ => Step::Done { result: Err(CategoryError::Internal(out_of_turn())) },
        }
    }
}

/// The operations on a user's categories. Each begins a flow: it returns
/// the first action, or the result where the request is refused at once.
pub struct CategoryService {}

impl CategoryService {
    /// Begins adding a category: the request is judged first, and a refused
    /// request ends the operation before any store is asked.
    pub fn add_category(body: Category, user_id: u128) -> (step: CategorySaveStep)
        ensures
            match body.fault() {
                None => asks(
                    step,
                    CategorySave::Beginning { user_id, category: body },
                    CategoryAction::Begin,
                ),
                Some(fault) => refuses(step, fault),
            },
    {
        match body.validate() {
            Err(error) => Step::Done { result: Err(error) },
            Ok(_) => Step::Ask {
                flow: CategorySave::Beginning { user_id, category: body },
                action: CategoryAction::Begin,
            },
        }
    }

    /// Begins reading one page of a user's categories: the first page where
    /// the request names none before it.
    pub fn get_user_categories(params: CategoryPagination, user_id: u128) -> (step:
        CategoryPageStep)
        ensures
            asks_store(
                step,
                CategoryPageRead::Resolving {
                    user_id,
                    page: served_page(params.page as int) as i64,
                },
                resolve_batch(Scope::Categories, user_id),
            ),
    {
        Step::Ask {
            flow: CategoryPageRead::Resolving { user_id, page: normalize_page(params.page) },
            action: CategoryAction::Store(resolve_commands(Scope::Categories, user_id)),
        }
    }
}

/// Every batch that the read of a page of categories sends is one of a
/// read: it bumps no generation and deletes nothing.
pub proof fn law_page_read_sends_reads(
    flow: CategoryPageRead,
    event: CategoryEvent,
    step: CategoryPageStep,
)
    requires
        flow.next(event, step),
        batch_of(step) is Some,
    ensures
        is_read_traffic(batch_of(step)->Some_0),
{
    let batch = batch_of(step)->Some_0;
    match (flow, event) {
        (CategoryPageRead::Resolving { user_id, page }, CategoryEvent::Store(outcome)) => {
            let at = step->Ask_flow->Looking_at;
            let sent = Traffic::Lookup { key: at.key_text() };
            assert(sent.is_read() && sent.commands() == batch);
        },
        (CategoryPageRead::Encoding { at, categories }, CategoryEvent::Encoded(Ok(text))) => {
            let sent = Traffic::KeepPage {
                scope: at.scope,
                user_id: at.user_id,
                generation: at.generation->Some_0@,
                page: at.page as int,
                payload: text@,
            };
            assert(sent.is_read() && sent.commands() == batch);
        },
        _ => {},
    }
}

/// Every batch that the adding of a category sends is the invalidation of a
/// write to the categories of the user.
pub proof fn law_save_sends_invalidation(
    flow: CategorySave,
    event: CategoryEvent,
    step: CategorySaveStep,
)
    requires
        flow.next(event, step),
        batch_of(step) is Some,
    ensures
        flow is Writing,
        is_write_traffic(batch_of(step)->Some_0, Scope::Categories, flow->Writing_user_id),
{
    match (flow, event) {
        (CategorySave::Writing { user_id }, CategoryEvent::Row(Ok(saved))) => {
            let sent = Traffic::WriteCategory { user_id };
            assert(sent.writes_to(Scope::Categories, user_id));
            assert(sent.commands() == batch_of(step)->Some_0);
        },
        _ => {},
    }
}

/// No failure of the key-value store ends the read of a page of
/// categories: whatever batch the store fails on, the read goes on or ends
/// in success.
pub proof fn law_failing_cache_never_fails_read(
    flow: CategoryPageRead,
    outcome: Outcome,
    step: CategoryPageStep,
)
    requires
        flow is Resolving || flow is Looking || flow is Keeping,
        flow.next(CategoryEvent::Store(outcome), step),
        outcome is Err,
    ensures
        step is Ask || (step is Done && step->Done_result is Ok
            && !step->Done_result->Ok_0.cached),
{
}

/// A failed write invalidates nothing, and a write whose invalidation
/// fails is never committed: in either case the adding of a category ends
/// at once with the failure.
pub proof fn law_failed_save_ends(flow: CategorySave, event: CategoryEvent, step: CategorySaveStep)
    requires
        flow.next(event, step),
        event matches CategoryEvent::Unit(Err(_)) || event matches CategoryEvent::Row(Err(_)) || (
        flow is Invalidating && event matches CategoryEvent::Store(Err(_))),
    ensures
        step is Done,
        step->Done_result is Err,
{
}

} // verus!
