//! The versioned read cache: which commands a read and a write send to the
//! key-value store, and how the replies are read.
//!
//! Lists are cached page by page under a key that holds the generation of
//! their scope; a write bumps the generation, which puts every page cached
//! before it out of reach. Single items and totals are cached under keys
//! without a generation; a write deletes them.

use vstd::prelude::*;
use crate::keys::{
    all_expenses_version_key, all_expenses_version_key_text, categories_version_key,
    categories_version_key_text, category_filter_expenses_version_key,
    category_filter_expenses_version_key_text, category_filter_total_expense_key,
    category_filter_total_expense_key_text, single_expense_key, single_expense_key_text,
    total_expense_key, total_expense_key_text, Scope, CACHE_TTL_SECONDS,
};
use crate::store::{Command, CommandView, Reply, ReplyView};

verus! {

/// What the store said to a batch: its replies, or why it failed.
pub type Outcome = Result<Vec<Reply>, String>;

/// The replies of an outcome, character by character.
pub open spec fn replies_of(outcome: Outcome) -> Option<Seq<ReplyView>> {
    match outcome {
        Ok(replies) => Some(replies.deep_view()),
        Err(_) => None,
    }
}

/// The batch that a read sends first: create the generation counter of the
/// scope at 1 if it is absent, and read it, in one round trip.
pub open spec fn resolve_batch(scope: Scope, user_id: u128) -> Seq<CommandView> {
    seq![
        CommandView::SetIfAbsent { key: scope.version_key_text(user_id), value: "1"@ },
        CommandView::Get { key: scope.version_key_text(user_id) },
    ]
}

/// The batch that looks one entry up.
pub open spec fn lookup_batch(key: Seq<char>) -> Seq<CommandView> {
    seq![CommandView::Get { key }]
}

/// The batch that caches a payload for the time that cache entries live.
pub open spec fn keep_batch(key: Seq<char>, payload: Seq<char>) -> Seq<CommandView> {
    seq![CommandView::SetEx { key, value: payload, ttl_seconds: CACHE_TTL_SECONDS }]
}

/// The commands that invalidate a user's view of one category: bump the
/// generation of its list and delete its total.
pub open spec fn category_scope_invalidation(category_id: u128, user_id: u128) -> Seq<
    CommandView,
> {
    seq![
        CommandView::Increment {
            key: category_filter_expenses_version_key_text(category_id, user_id),
            delta: 1,
        },
        CommandView::Delete { key: category_filter_total_expense_key_text(category_id, user_id) },
    ]
}

/// The batch that a write to a user's expenses sends: delete the cached copy
/// of the expense written, if it had one; bump the generation of the list of
/// all expenses and delete its total; bump the generation of the category's
/// list and delete its total; and, where the write moved the expense out of
/// another category, the same for the category it left.
pub open spec fn expense_invalidation(
    category_id: u128,
    user_id: u128,
    expense_id: Option<u128>,
    left: Option<u128>,
) -> Seq<CommandView> {
    let item = match expense_id {
        Some(id) => seq![CommandView::Delete { key: single_expense_key_text(id, user_id) }],
        None => Seq::empty(),
    };
    let before = match left {
        Some(previous) => category_scope_invalidation(previous, user_id),
        None => Seq::empty(),
    };
    item + seq![
        CommandView::Increment { key: all_expenses_version_key_text(user_id), delta: 1 },
        CommandView::Delete { key: total_expense_key_text(user_id) },
    ] + category_scope_invalidation(category_id, user_id) + before
}

/// The category that an expense left, where a write gave it another.
pub open spec fn category_left(previous: u128, current: u128) -> Option<u128> {
    if previous == current {
        None
    } else {
        Some(previous)
    }
}

/// The batch that a write to a user's categories sends: bump the generation
/// of the category list.
pub open spec fn category_invalidation(user_id: u128) -> Seq<CommandView> {
    seq![CommandView::Increment { key: categories_version_key_text(user_id), delta: 1 }]
}

/// The generation that the replies to a resolve batch report: the text read
/// by its second command, provided the first was answered with a number.
pub open spec fn generation_in(replies: Seq<ReplyView>) -> Option<Seq<char>> {
    if replies.len() == 2 && replies[0] is Integer && replies[1] is Text {
        Some(replies[1]->Text_0)
    } else {
        None
    }
}

/// The payload that the replies to a lookup report, if the entry was there.
pub open spec fn payload_in(replies: Seq<ReplyView>) -> Option<Seq<char>> {
    if replies.len() == 1 && replies[0] is Text {
        Some(replies[0]->Text_0)
    } else {
        None
    }
}

/// Whether the key is present, as the replies to an existence check report
/// it with one number.
pub open spec fn presence_in(replies: Seq<ReplyView>) -> Option<bool> {
    if replies.len() == 1 && replies[0] is Integer {
        Some(replies[0]->Integer_0 != 0)
    } else {
        None
    }
}

/// The generation that a resolve batch found. A batch that failed, or that
/// was answered in another shape, found none: the cache is an optimisation,
/// and the read goes on to the relational store without it.
pub open spec fn resolved_in(outcome: Outcome) -> Option<Seq<char>> {
    match replies_of(outcome) {
        Some(replies) => generation_in(replies),
        None => None,
    }
}

/// The payload that a lookup found. A lookup that failed counts as one that
/// found nothing: the cache is an optimisation, and the read goes on to the
/// relational store.
pub open spec fn found_in(outcome: Outcome) -> Option<Seq<char>> {
    match replies_of(outcome) {
        Some(replies) => payload_in(replies),
        None => None,
    }
}

/// Builds the batch that a read sends first.
pub fn resolve_commands(scope: Scope, user_id: u128) -> (batch: Vec<Command>)
    ensures
        batch.deep_view() == resolve_batch(scope, user_id),
{
    let mut batch: Vec<Command> = Vec::new();
    batch.push(
        Command::SetIfAbsent { key: scope.version_key(user_id), value: String::from_str("1") },
    );
    batch.push(Command::Get { key: scope.version_key(user_id) });
    assert(batch.deep_view() =~= resolve_batch(scope, user_id));
    batch
}

/// Builds the batch that looks one entry up.
pub fn lookup_commands(key: String) -> (batch: Vec<Command>)
    ensures
        batch.deep_view() == lookup_batch(key@),
{
    let mut batch: Vec<Command> = Vec::new();
    batch.push(Command::Get { key });
    assert(batch.deep_view() =~= lookup_batch(key@));
    batch
}

/// Builds the batch that caches a payload.
pub fn keep_commands(key: String, payload: String) -> (batch: Vec<Command>)
    ensures
        batch.deep_view() == keep_batch(key@, payload@),
{
    let mut batch: Vec<Command> = Vec::new();
    batch.push(Command::SetEx { key, value: payload, ttl_seconds: CACHE_TTL_SECONDS });
    assert(batch.deep_view() =~= keep_batch(key@, payload@));
    batch
}

/// Builds the batch that a write to a user's expenses sends. `left` is the
/// category that the expense was moved out of, if the write moved it.
pub fn invalidate_expense_cache(
    category_id: u128,
    user_id: u128,
    expense_id: Option<u128>,
    left: Option<u128>,
) -> (batch: Vec<Command>)
    ensures
        batch.deep_view() == expense_invalidation(category_id, user_id, expense_id, left),
{
    let mut batch: Vec<Command> = Vec::new();
    if let Some(id) = expense_id {
        batch.push(Command::Delete { key: single_expense_key(id, user_id) });
    }
    batch.push(Command::Increment { key: all_expenses_version_key(user_id), delta: 1 });
    batch.push(Command::Delete { key: total_expense_key(user_id) });
    batch.push(
        Command::Increment {
            key: category_filter_expenses_version_key(category_id, user_id),
            delta: 1,
        },
    );
    batch.push(Command::Delete { key: category_filter_total_expense_key(category_id, user_id) });
    if let Some(previous) = left {
        batch.push(
            Command::Increment {
                key: category_filter_expenses_version_key(previous, user_id),
                delta: 1,
            },
        );
        batch.push(
            Command::Delete { key: category_filter_total_expense_key(previous, user_id) },
        );
    }
    assert(batch.deep_view() =~= expense_invalidation(category_id, user_id, expense_id, left));
    batch
}

/// Builds the batch that a write to a user's categories sends.
pub fn invalidate_category_cache(user_id: u128) -> (batch: Vec<Command>)
    ensures
        batch.deep_view() == category_invalidation(user_id),
{
    let mut batch: Vec<Command> = Vec::new();
    batch.push(Command::Increment { key: categories_version_key(user_id), delta: 1 });
    assert(batch.deep_view() =~= category_invalidation(user_id));
    batch
}

/// Reads the generation out of the outcome of a resolve batch, or `None`
/// where the batch failed or was answered in another shape: the read then
/// goes on without the cache.
pub fn read_generation(outcome: Outcome) -> (generation: Option<String>)
    ensures
        match generation {
            Some(text) => resolved_in(outcome) == Some(text@),
            None => resolved_in(outcome) is None,
        },
{
    match outcome {
        Err(_) => None,
        Ok(replies) => {
            if replies.len() == 2 {
                match (&replies[0], &replies[1]) {
                    (Reply::Integer(_), Reply::Text(text)) => Some(text.clone()),
                    _ => None,
                }
            } else {
                None
            }
        },
    }
}

/// Reads the payload out of the outcome of a lookup.
pub fn read_cached(outcome: Outcome) -> (payload: Option<String>)
    ensures
        match payload {
            Some(text) => found_in(outcome) == Some(text@),
            None => found_in(outcome) is None,
        },
{
    match outcome {
        Err(_) => None,
        Ok(replies) => {
            if replies.len() == 1 {
                match &replies[0] {
                    Reply::Text(text) => Some(text.clone()),
                    _ => None,
                }
            } else {
                None
            }
        },
    }
}

/// Reads the answer to an existence check out of an outcome: whether the
/// key is present, or the cause of the failure. A reply that is no number is
/// a failure.
pub fn read_presence(outcome: Outcome) -> (present: Result<bool, String>)
    ensures
        match (outcome, present) {
            (Ok(replies), Ok(b)) => presence_in(replies.deep_view()) == Some(b),
            (Ok(replies), Err(text)) => presence_in(replies.deep_view()) is None && text@
                == "unexpected reply to the existence check"@,
            (Err(cause), Err(text)) => text == cause,
            (Err(_), Ok(_)) => false,
        },
{
    match outcome {
        Err(cause) => Err(cause),
        Ok(replies) => {
            if replies.len() == 1 {
                match &replies[0] {
                    Reply::Integer(n) => Ok(*n != 0),
                    _ => Err(String::from_str("unexpected reply to the existence check")),
                }
            } else {
                Err(String::from_str("unexpected reply to the existence check"))
            }
        },
    }
}

} // verus!
