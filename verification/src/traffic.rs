//! Everything the service ever sends to the key-value store, and what a run
//! of it does to the generation counters.

use vstd::prelude::*;
use crate::cache::{
    category_invalidation, expense_invalidation, keep_batch, lookup_batch, resolve_batch,
};
use crate::key_shapes::{
    lemma_category_total_key_marks, lemma_page_key_marks, lemma_refresh_key_marks,
    lemma_single_expense_key_marks, lemma_total_key_marks, lemma_version_key_marks, marks,
    version_marks,
};
use crate::keys::{
    category_filter_total_expense_key_text, single_expense_key_text, total_expense_key_text,
    Scope,
};
use crate::rotation::{check_batch, record_batch, revoke_batch};
use crate::store::{
    apply, apply_all, counter_at, counter_ok, lemma_counter_value, CommandView, Contents,
};
use crate::text::{digit_char, int_text, nat_text};

verus! {

/// One batch that the service sends.
pub enum Traffic {
    /// A read creates and reads the generation counter of a scope.
    Resolve { scope: Scope, user_id: u128 },
    /// A read looks an entry up.
    Lookup { key: Seq<char> },
    /// A read caches a page.
    KeepPage { scope: Scope, user_id: u128, generation: Seq<char>, page: int, payload: Seq<char> },
    /// A read caches one expense.
    KeepExpense { expense_id: u128, user_id: u128, payload: Seq<char> },
    /// A read caches the total of all expenses.
    KeepTotal { user_id: u128, payload: Seq<char> },
    /// A read caches the total of a category.
    KeepCategoryTotal { category_id: u128, user_id: u128, payload: Seq<char> },
    /// A write to a user's expenses invalidates what it affects.
    WriteExpense { category_id: u128, user_id: u128, item: Option<u128>, left: Option<u128> },
    /// A write to a user's categories invalidates their list.
    WriteCategory { user_id: u128 },
    /// A session starts or rotates: a token identifier goes on record.
    RecordToken { token_id: Seq<char> },
    /// A renewal asks whether a token identifier is on record.
    CheckToken { token_id: Seq<char> },
    /// A rotation strikes the token identifier that was presented.
    RevokeToken { token_id: Seq<char> },
}

impl Traffic {
    /// The commands of the batch.
    pub open spec fn commands(self) -> Seq<CommandView> {
        match self {
            Traffic::Resolve { scope, user_id } => resolve_batch(scope, user_id),
            Traffic::Lookup { key } => lookup_batch(key),
            Traffic::KeepPage { scope, user_id, generation, page, payload } => keep_batch(
                scope.page_key_text(user_id, generation, page),
                payload,
            ),
            Traffic::KeepExpense { expense_id, user_id, payload } => keep_batch(
                single_expense_key_text(expense_id, user_id),
                payload,
            ),
            Traffic::KeepTotal { user_id, payload } => keep_batch(
                total_expense_key_text(user_id),
                payload,
            ),
            Traffic::KeepCategoryTotal { category_id, user_id, payload } => keep_batch(
                category_filter_total_expense_key_text(category_id, user_id),
                payload,
            ),
            Traffic::WriteExpense { category_id, user_id, item, left } => expense_invalidation(
                category_id,
                user_id,
                item,
                left,
            ),
            Traffic::WriteCategory { user_id } => category_invalidation(user_id),
            Traffic::RecordToken { token_id } => record_batch(token_id),
            Traffic::CheckToken { token_id } => check_batch(token_id),
            Traffic::RevokeToken { token_id } => revoke_batch(token_id),
        }
    }

    /// Whether the batch is a write that affects the given scope of the
    /// given user.
    pub open spec fn writes_to(self, scope: Scope, user_id: u128) -> bool {
        match self {
            Traffic::WriteExpense { category_id, user_id: writer, item, left } => writer
                == user_id && (scope == Scope::Expenses || scope == (Scope::CategoryExpenses {
                category_id,
            }) || (left matches Some(previous) && scope == (Scope::CategoryExpenses {
                category_id: previous,
            }))),
            Traffic::WriteCategory { user_id: writer } => writer == user_id && scope
                == Scope::Categories,
            _ => false,
        }
    }

    /// Where, in the batch of a write, the generation of the given scope is
    /// bumped.
    pub open spec fn bump_index(self, scope: Scope) -> int {
        match self {
            Traffic::WriteExpense { category_id, user_id, item, left } => {
                let start: int = if item is Some {
                    1
                } else {
                    0
                };
                if scope == Scope::Expenses {
                    start
                } else if scope == (Scope::CategoryExpenses { category_id }) {
                    start + 2
                } else {
                    start + 4
                }
            },
            _ => 0,
        }
    }

    /// Whether the batch belongs to a read of cached data.
    pub open spec fn is_read(self) -> bool {
        !(self is WriteExpense || self is WriteCategory || self is RecordToken
            || self is RevokeToken)
    }
}

/// What the store holds after a run of batches.
pub open spec fn run(contents: Contents, trace: Seq<Traffic>) -> Contents
    decreases trace.len(),
{
    if trace.len() == 0 {
        contents
    } else {
        apply_all(run(contents, trace.drop_last()), trace.last().commands()).0
    }
}

/// Whether a command leaves the generation counters to grow: it sets no
/// counter but to create it at 1, adds nothing negative, and neither
/// overwrites nor deletes under a key that bears the marks of a counter.
pub open spec fn tame(command: CommandView) -> bool {
    match command {
        CommandView::Get { key } => true,
        CommandView::Exists { key } => true,
        CommandView::SetIfAbsent { key, value } => value == int_text(1),
        CommandView::Increment { key, delta } => delta >= 0,
        CommandView::SetEx { key, value, ttl_seconds } => !version_marks(marks(key)),
        CommandView::Delete { key } => !version_marks(marks(key)),
    }
}

/// Whether every command of a batch is tame.
pub open spec fn all_tame(batch: Seq<CommandView>) -> bool {
    forall|i: int| 0 <= i < batch.len() ==> tame(#[trigger] batch[i])
}

/// The text `1` is the decimal notation of one.
pub proof fn lemma_one_text()
    ensures
        "1"@ == int_text(1),
{
    reveal_strlit("1");
    assert(nat_text(1) =~= seq![digit_char(1)]);
    assert("1"@ =~= seq!['1']);
}

/// A tame command never lowers a generation counter, nor spoils it.
pub proof fn lemma_tame_command(contents: Contents, command: CommandView, counter: Seq<char>)
    requires
        tame(command),
        version_marks(marks(counter)),
        counter_ok(contents, counter),
    ensures
        counter_ok(apply(contents, command).0, counter),
        counter_at(apply(contents, command).0, counter) >= counter_at(contents, counter),
        contents.contains_key(counter) ==> apply(contents, command).0.contains_key(counter),
        command == (CommandView::Increment { key: counter, delta: 1 }) && !(apply(
            contents,
            command,
        ).1 is Error) ==> apply(contents, command).0.contains_key(counter) && counter_at(
            apply(contents, command).0,
            counter,
        ) == counter_at(contents, counter) + 1,
{
    match command {
        CommandView::SetIfAbsent { key, value } => {
            lemma_counter_value(1);
        },
        CommandView::Increment { key, delta } => {
            if counter_ok(contents, key) {
                let sum = counter_at(contents, key) + delta;
                if i64::MIN <= sum <= i64::MAX {
                    lemma_counter_value(sum);
                }
            }
        },
        _ => {},
    }
}

/// A batch of tame commands never lowers a generation counter, nor spoils
/// it.
pub proof fn lemma_tame_batch(contents: Contents, batch: Seq<CommandView>, counter: Seq<char>)
    requires
        all_tame(batch),
        version_marks(marks(counter)),
        counter_ok(contents, counter),
    ensures
        counter_ok(apply_all(contents, batch).0, counter),
        counter_at(apply_all(contents, batch).0, counter) >= counter_at(contents, counter),
        contents.contains_key(counter) ==> apply_all(contents, batch).0.contains_key(counter),
    decreases batch.len(),
{
    if batch.len() > 0 {
        lemma_tame_batch(contents, batch.drop_last(), counter);
        lemma_tame_command(apply_all(contents, batch.drop_last()).0, batch.last(), counter);
    }
}

/// A batch of tame commands that holds an increment of a counter by one, and
/// that the store carried out, raises the counter and leaves it present.
pub proof fn lemma_bumping_batch(
    contents: Contents,
    batch: Seq<CommandView>,
    counter: Seq<char>,
    at: int,
)
    requires
        all_tame(batch),
        version_marks(marks(counter)),
        counter_ok(contents, counter),
        0 <= at < batch.len(),
        batch[at] == (CommandView::Increment { key: counter, delta: 1 }),
        !(apply_all(contents, batch).1[at] is Error),
    ensures
        counter_at(apply_all(contents, batch).0, counter) > counter_at(contents, counter),
        apply_all(contents, batch).0.contains_key(counter),
    decreases batch.len(),
{
    let before = apply_all(contents, batch.drop_last());
    crate::store::lemma_apply_all_len(contents, batch.drop_last());
    lemma_tame_batch(contents, batch.drop_last(), counter);
    lemma_tame_command(before.0, batch.last(), counter);
    if at < batch.len() - 1 {
        assert(apply_all(contents, batch).1[at] == before.1[at]);
        lemma_bumping_batch(contents, batch.drop_last(), counter, at);
    }
}

/// Every batch that the service sends is made of tame commands.
pub proof fn lemma_traffic_is_tame(traffic: Traffic)
    ensures
        all_tame(traffic.commands()),
{
    lemma_one_text();
    match traffic {
        Traffic::KeepPage { scope, user_id, generation, page, payload } => {
            lemma_page_key_marks(scope, user_id, generation, page);
        },
        Traffic::KeepExpense { expense_id, user_id, payload } => {
            lemma_single_expense_key_marks(expense_id, user_id);
        },
        Traffic::KeepTotal { user_id, payload } => {
            lemma_total_key_marks(user_id);
        },
        Traffic::KeepCategoryTotal { category_id, user_id, payload } => {
            lemma_category_total_key_marks(category_id, user_id);
        },
        Traffic::WriteExpense { category_id, user_id, item, left } => {
            lemma_total_key_marks(user_id);
            lemma_category_total_key_marks(category_id, user_id);
            if let Some(previous) = left {
                lemma_category_total_key_marks(previous, user_id);
            }
            if let Some(id) = item {
                lemma_single_expense_key_marks(id, user_id);
            }
        },
        Traffic::RecordToken { token_id } => {
            lemma_refresh_key_marks(token_id);
        },
        Traffic::RevokeToken { token_id } => {
            lemma_refresh_key_marks(token_id);
        },
        _ => {},
    }
}

/// No run of the service's batches lowers a generation counter, nor spoils
/// it.
pub proof fn lemma_run_keeps_counter(
    contents: Contents,
    trace: Seq<Traffic>,
    scope: Scope,
    user_id: u128,
)
    requires
        counter_ok(contents, scope.version_key_text(user_id)),
    ensures
        counter_ok(run(contents, trace), scope.version_key_text(user_id)),
        counter_at(run(contents, trace), scope.version_key_text(user_id)) >= counter_at(
            contents,
            scope.version_key_text(user_id),
        ),
    decreases trace.len(),
{
    if trace.len() > 0 {
        lemma_run_keeps_counter(contents, trace.drop_last(), scope, user_id);
        lemma_traffic_is_tame(trace.last());
        lemma_version_key_marks(scope, user_id);
        lemma_tame_batch(
            run(contents, trace.drop_last()),
            trace.last().commands(),
            scope.version_key_text(user_id),
        );
    }
}

/// Whether a batch is one that a read of cached data sends.
pub open spec fn is_read_traffic(batch: Seq<CommandView>) -> bool {
    exists|traffic: Traffic| traffic.is_read() && #[trigger] traffic.commands() == batch
}

/// Whether a batch is the invalidation that a write to the given scope of
/// the given user sends.
pub open spec fn is_write_traffic(batch: Seq<CommandView>, scope: Scope, user_id: u128) -> bool {
    exists|traffic: Traffic|
        traffic.writes_to(scope, user_id) && #[trigger] traffic.commands() == batch
}

/// Whether a batch is one that the service sends.
pub open spec fn is_traffic(batch: Seq<CommandView>) -> bool {
    exists|traffic: Traffic| #[trigger] traffic.commands() == batch
}

/// The batch of a write bumps the generation of each scope it writes to,
/// at the place that `bump_index` names.
pub proof fn lemma_write_bumps(write: Traffic, scope: Scope, user_id: u128)
    requires
        write.writes_to(scope, user_id),
    ensures
        0 <= write.bump_index(scope) < write.commands().len(),
        write.commands()[write.bump_index(scope)] == (CommandView::Increment {
            key: scope.version_key_text(user_id),
            delta: 1,
        }),
{
}

} // verus!
