//! What the store holds after any history of the service's batches: every
//! generation counter is a number, and no page is cached under a generation
//! that its scope has not reached.

use vstd::prelude::*;
use crate::cache::keep_batch;
use crate::ident::{lemma_uuid_text_injective, uuid_text};
use crate::key_shapes::{
    lemma_category_filter_prefix_len, lemma_category_total_key_marks, lemma_page_key_injective,
    lemma_page_key_marks, lemma_refresh_key_marks, lemma_single_expense_key_marks,
    lemma_total_key_marks, lemma_user_prefix_len, lemma_version_key_marks, marks, page_marks,
};
use crate::keys::{category_filter_prefix, user_prefix, Scope, CACHE_TTL_SECONDS};
use crate::store::{
    apply, apply_all, counter_at, counter_ok, lemma_apply_all_one, CommandView, Contents,
};
use crate::text::int_text;
use crate::traffic::{
    all_tame, lemma_tame_command, lemma_traffic_is_tame, run, tame, Traffic,
};

verus! {

/// Whether the store is as the service leaves it: what stands under the key
/// of a generation counter is a number, and every cached page is filed
/// under a generation that its scope has reached.
pub open spec fn settled(contents: Contents) -> bool {
    &&& forall|scope: Scope, user_id: u128|
        counter_ok(contents, #[trigger] scope.version_key_text(user_id))
    &&& forall|scope: Scope, user_id: u128, generation: int, page: int|
        contents.contains_key(
            #[trigger] scope.page_key_text(user_id, int_text(generation), page),
        ) ==> generation <= counter_at(contents, scope.version_key_text(user_id))
}

/// Whether a batch is sent as the flows send it: a page is cached only
/// under a generation that a read has resolved, which is a number that the
/// counter of the scope has reached.
pub open spec fn honest(contents: Contents, traffic: Traffic) -> bool {
    match traffic {
        Traffic::KeepPage { scope, user_id, generation, page, payload } => exists|g: int|
            generation == #[trigger] int_text(g) && g <= counter_at(
                contents,
                scope.version_key_text(user_id),
            ),
        _ => true,
    }
}

/// Whether every batch of a run is sent as the flows send it.
pub open spec fn honest_run(contents: Contents, trace: Seq<Traffic>) -> bool
    decreases trace.len(),
{
    trace.len() == 0 || (honest_run(contents, trace.drop_last()) && honest(
        run(contents, trace.drop_last()),
        trace.last(),
    ))
}

/// Whether a command puts nothing under a key that bears the marks of a
/// cached page.
pub open spec fn adds_no_page(command: CommandView) -> bool {
    match command {
        CommandView::SetEx { key, value, ttl_seconds } => !page_marks(marks(key)),
        CommandView::SetIfAbsent { key, value } => !page_marks(marks(key)),
        CommandView::Increment { key, delta } => !page_marks(marks(key)),
        _ => true,
    }
}

/// Whether every page key of `after` is one of `before`.
pub open spec fn no_new_page(before: Contents, after: Contents) -> bool {
    forall|key: Seq<char>|
        page_marks(marks(key)) && #[trigger] after.contains_key(key) ==> before.contains_key(key)
}

/// The empty store is settled.
pub proof fn law_empty_store_is_settled()
    ensures
        settled(Map::<Seq<char>, Seq<char>>::empty()),
{
}

/// The key of a page of a category names the category: the 36 characters
/// from the 59th on are its identifier.
pub proof fn lemma_page_key_names_category(
    category_id: u128,
    user_id: u128,
    generation: Seq<char>,
    page: int,
)
    ensures
        (Scope::CategoryExpenses { category_id }).page_key_text(user_id, generation, page).len()
            >= 94,
        (Scope::CategoryExpenses { category_id }).page_key_text(
            user_id,
            generation,
            page,
        ).subrange(58, 94) == uuid_text(category_id),
{
    lemma_user_prefix_len(user_id);
    lemma_category_filter_prefix_len(category_id, user_id);
    reveal_strlit(":filter:category:");
    let start = category_filter_prefix(category_id, user_id);
    let key = (Scope::CategoryExpenses { category_id }).page_key_text(user_id, generation, page);
    assert forall|i: int| 0 <= i < 94 implies key[i] == start[i] by {}
    assert(start.subrange(58, 94) =~= uuid_text(category_id));
    assert(key.subrange(58, 94) =~= start.subrange(58, 94));
}

/// The key of a page names its owner: the 36 characters after `user:` are
/// the owner's identifier.
pub proof fn lemma_page_key_names_owner(
    scope: Scope,
    user_id: u128,
    generation: Seq<char>,
    page: int,
)
    ensures
        scope.page_key_text(user_id, generation, page).len() >= 41,
        scope.page_key_text(user_id, generation, page).subrange(5, 41) == uuid_text(user_id),
{
    lemma_user_prefix_len(user_id);
    reveal_strlit("user:");
    let start = user_prefix(user_id);
    let key = scope.page_key_text(user_id, generation, page);
    if let Scope::CategoryExpenses { category_id } = scope {
        lemma_category_filter_prefix_len(category_id, user_id);
    }
    assert forall|i: int| 0 <= i < 41 implies key[i] == start[i] by {}
    assert(start.subrange(5, 41) =~= uuid_text(user_id));
    assert(key.subrange(5, 41) =~= start.subrange(5, 41));
}

/// The key of a cached page names everything it is filed under: two page
/// keys whose generations are numbers are equal only if scope, owner,
/// generation and page are.
pub proof fn lemma_page_key_names_all(
    scope: Scope,
    user_id: u128,
    generation: int,
    page: int,
    other_scope: Scope,
    other_user: u128,
    other_generation: int,
    other_page: int,
)
    requires
        scope.page_key_text(user_id, int_text(generation), page) == other_scope.page_key_text(
            other_user,
            int_text(other_generation),
            other_page,
        ),
    ensures
        scope == other_scope,
        user_id == other_user,
        generation == other_generation,
        page == other_page,
{
    lemma_page_key_marks(scope, user_id, int_text(generation), page);
    lemma_page_key_marks(other_scope, other_user, int_text(other_generation), other_page);
    lemma_page_key_names_owner(scope, user_id, int_text(generation), page);
    lemma_page_key_names_owner(other_scope, other_user, int_text(other_generation), other_page);
    lemma_uuid_text_injective(user_id, other_user);
    match (scope, other_scope) {
        (
            Scope::CategoryExpenses { category_id },
            Scope::CategoryExpenses { category_id: other_category },
        ) => {
            lemma_page_key_names_category(category_id, user_id, int_text(generation), page);
            lemma_page_key_names_category(
                other_category,
                other_user,
                int_text(other_generation),
                other_page,
            );
            lemma_uuid_text_injective(category_id, other_category);
        },
        _ => {},
    }
    lemma_page_key_injective(scope, user_id, generation, page, other_generation, other_page);
}

/// A tame command that puts nothing under a page key leaves a settled
/// store settled, with no page that was not there.
pub proof fn lemma_command_keeps_settled(contents: Contents, command: CommandView)
    requires
        settled(contents),
        tame(command),
        adds_no_page(command),
    ensures
        settled(apply(contents, command).0),
        no_new_page(contents, apply(contents, command).0),
{
    let after = apply(contents, command).0;
    assert forall|scope: Scope, user_id: u128|
        counter_ok(after, #[trigger] scope.version_key_text(user_id)) by {
        lemma_version_key_marks(scope, user_id);
        lemma_tame_command(contents, command, scope.version_key_text(user_id));
    }
    assert forall|scope: Scope, user_id: u128, generation: int, page: int|
        after.contains_key(
            #[trigger] scope.page_key_text(user_id, int_text(generation), page),
        ) implies generation <= counter_at(after, scope.version_key_text(user_id)) by {
        lemma_version_key_marks(scope, user_id);
        lemma_page_key_marks(scope, user_id, int_text(generation), page);
        lemma_tame_command(contents, command, scope.version_key_text(user_id));
    }
}

/// A batch of tame commands that put nothing under a page key leaves a
/// settled store settled, with no page that was not there.
pub proof fn lemma_batch_keeps_settled(contents: Contents, batch: Seq<CommandView>)
    requires
        settled(contents),
        all_tame(batch),
        forall|i: int| 0 <= i < batch.len() ==> adds_no_page(#[trigger] batch[i]),
    ensures
        settled(apply_all(contents, batch).0),
        no_new_page(contents, apply_all(contents, batch).0),
    decreases batch.len(),
{
    if batch.len() > 0 {
        lemma_batch_keeps_settled(contents, batch.drop_last());
        assert(tame(batch.last()) && adds_no_page(batch.last()));
        lemma_command_keeps_settled(apply_all(contents, batch.drop_last()).0, batch.last());
    }
}

/// Caching a page under a generation that its scope has reached leaves a
/// settled store settled.
pub proof fn lemma_keep_page_keeps_settled(
    contents: Contents,
    scope: Scope,
    user_id: u128,
    generation: int,
    page: int,
    payload: Seq<char>,
)
    requires
        settled(contents),
        generation <= counter_at(contents, scope.version_key_text(user_id)),
    ensures
        settled(
            apply_all(
                contents,
                keep_batch(scope.page_key_text(user_id, int_text(generation), page), payload),
            ).0,
        ),
{
    let key = scope.page_key_text(user_id, int_text(generation), page);
    let keep = CommandView::SetEx { key, value: payload, ttl_seconds: CACHE_TTL_SECONDS };
    lemma_apply_all_one(contents, keep);
    lemma_page_key_marks(scope, user_id, int_text(generation), page);
    let after = apply(contents, keep).0;
    assert forall|s: Scope, u: u128| counter_ok(after, #[trigger] s.version_key_text(u)) by {
        lemma_version_key_marks(s, u);
        lemma_tame_command(contents, keep, s.version_key_text(u));
    }
    assert forall|s: Scope, u: u128, g: int, p: int|
        after.contains_key(#[trigger] s.page_key_text(u, int_text(g), p)) implies g
        <= counter_at(after, s.version_key_text(u)) by {
        lemma_version_key_marks(s, u);
        lemma_tame_command(contents, keep, s.version_key_text(u));
        if s.page_key_text(u, int_text(g), p) == key {
            lemma_page_key_names_all(s, u, g, p, scope, user_id, generation, page);
        }
    }
}

/// Every batch of the service that is sent as the flows send it leaves a
/// settled store settled.
pub proof fn lemma_traffic_keeps_settled(contents: Contents, traffic: Traffic)
    requires
        settled(contents),
        honest(contents, traffic),
    ensures
        settled(apply_all(contents, traffic.commands()).0),
{
    match traffic {
        Traffic::KeepPage { scope, user_id, generation, page, payload } => {
            let g = choose|g: int|
                generation == #[trigger] int_text(g) && g <= counter_at(
                    contents,
                    scope.version_key_text(user_id),
                );
            lemma_keep_page_keeps_settled(contents, scope, user_id, g, page, payload);
        },
        _ => {
            lemma_adds_no_page(traffic);
            lemma_traffic_is_tame(traffic);
            lemma_batch_keeps_settled(contents, traffic.commands());
        },
    }
}

/// No batch of the service but the caching of a page puts anything under a
/// page key.
pub proof fn lemma_adds_no_page(traffic: Traffic)
    requires
        !(traffic is KeepPage),
    ensures
        forall|i: int|
            0 <= i < traffic.commands().len() ==> adds_no_page(#[trigger] traffic.commands()[i]),
{
    match traffic {
        Traffic::Resolve { scope, user_id } => {
            lemma_version_key_marks(scope, user_id);
        },
        Traffic::KeepExpense { expense_id, user_id, payload } => {
            lemma_single_expense_key_marks(expense_id, user_id);
        },
        Traffic::KeepTotal { user_id, payload } => {
            lemma_total_key_marks(user_id);
        },
        Traffic::KeepCategoryTotal { category_id, user_id, payload } => {
            lemma_category_total_key_marks(category_id, user_id);
        },
        Traffic::WriteExpense { category_id, user_id, item, left } => {
            lemma_version_key_marks(Scope::Expenses, user_id);
            lemma_version_key_marks(Scope::CategoryExpenses { category_id }, user_id);
            if let Some(previous) = left {
                lemma_version_key_marks(Scope::CategoryExpenses { category_id: previous }, user_id);
            }
        },
        Traffic::WriteCategory { user_id } => {
            lemma_version_key_marks(Scope::Categories, user_id);
        },
        Traffic::RecordToken { token_id } => {
            lemma_refresh_key_marks(token_id);
        },
        _ => {},
    }
}

/// Every history of batches sent as the flows send them leaves a settled
/// store settled.
pub proof fn lemma_run_keeps_settled(contents: Contents, trace: Seq<Traffic>)
    requires
        settled(contents),
        honest_run(contents, trace),
    ensures
        settled(run(contents, trace)),
    decreases trace.len(),
{
    if trace.len() > 0 {
        lemma_run_keeps_settled(contents, trace.drop_last());
        lemma_traffic_keeps_settled(run(contents, trace.drop_last()), trace.last());
    }
}

} // verus!
