//! What holds of the cache and of token rotation whenever the key-value
//! store answers as the model says.

use vstd::prelude::*;
use crate::cache::{
    expense_invalidation, generation_in, keep_batch, lookup_batch, payload_in,
    resolve_batch,
};
use crate::history::{
    honest_run, lemma_adds_no_page, lemma_batch_keeps_settled, lemma_run_keeps_settled,
    no_new_page, settled,
};
use crate::ident::{lemma_uuid_text_injective, uuid_text};
use crate::key_shapes::{
    lemma_category_filter_prefix_len, lemma_user_prefix_len,
    lemma_page_key_injective, lemma_same_beginning, lemma_single_expense_key_marks,
    lemma_version_key_marks, marks, version_marks,
};
use crate::keys::{
    category_filter_total_expense_key_text, refresh_token_key_text, single_expense_key_text,
    total_expense_key_text, Scope,
};
use crate::rotation::{check_batch, record_batch, revoke_batch};
use crate::store::{
    apply, apply_all, counter_at, counter_ok, is_counter_text,
    lemma_apply_all_append, lemma_apply_all_len, lemma_apply_all_one, lemma_apply_all_push,
    CommandView, Contents,
    ReplyView,
};
use crate::text::int_text;
use crate::traffic::{
    lemma_bumping_batch, lemma_one_text, lemma_run_keeps_counter, lemma_tame_batch,
    lemma_traffic_is_tame, lemma_write_bumps, run, Traffic,
};

verus! {

/// A read finds the generation of its scope: after the resolve batch the
/// counter is present, the batch reports its text, and a counter that was
/// present before is left as it was.
pub proof fn lemma_resolve_reads_counter(contents: Contents, scope: Scope, user_id: u128)
    requires
        counter_ok(contents, scope.version_key_text(user_id)),
    ensures
        ({
            let counter = scope.version_key_text(user_id);
            let (after, replies) = apply_all(contents, resolve_batch(scope, user_id));
            &&& after.contains_key(counter)
            &&& counter_ok(after, counter)
            &&& generation_in(replies) == Some(after[counter])
            &&& after[counter] == int_text(counter_at(after, counter))
            &&& contents.contains_key(counter) ==> after == contents
            &&& !contents.contains_key(counter) ==> after == contents.insert(counter, int_text(1))
        }),
{
    let counter = scope.version_key_text(user_id);
    let create = CommandView::SetIfAbsent { key: counter, value: "1"@ };
    let read = CommandView::Get { key: counter };
    lemma_one_text();
    crate::store::lemma_counter_value(1);
    assert(resolve_batch(scope, user_id) =~= seq![create].push(read));
    lemma_apply_all_one(contents, create);
    lemma_apply_all_push(contents, seq![create], read);
    let after = apply(contents, create).0;
    assert(is_counter_text(after[counter]));
}

/// No stale page after a write. Take any run of the service's batches, then
/// a write to a scope that the store carried out, then any further run. A
/// read that follows finds a generation that is greater than every
/// generation the scope had before the write; so the key of the page it
/// looks up differs from the key of every page cached, for that scope, under
/// a generation from before the write.
pub proof fn law_write_retires_pages(
    contents: Contents,
    before: Seq<Traffic>,
    write: Traffic,
    after: Seq<Traffic>,
    scope: Scope,
    user_id: u128,
    old_generation: int,
    old_page: int,
    page: int,
)
    requires
        counter_ok(contents, scope.version_key_text(user_id)),
        write.writes_to(scope, user_id),
        crate::store::all_carried_out(apply_all(run(contents, before), write.commands()).1),
        old_generation <= counter_at(run(contents, before), scope.version_key_text(user_id)),
    ensures
        ({
            let counter = scope.version_key_text(user_id);
            let written = apply_all(run(contents, before), write.commands()).0;
            let (read, replies) = apply_all(run(written, after), resolve_batch(scope, user_id));
            &&& generation_in(replies) == Some(int_text(counter_at(read, counter)))
            &&& counter_at(read, counter) > old_generation
            &&& scope.page_key_text(user_id, int_text(counter_at(read, counter)), page)
                != scope.page_key_text(user_id, int_text(old_generation), old_page)
        }),
{
    let counter = scope.version_key_text(user_id);
    let start = run(contents, before);
    let batch = write.commands();
    let written = apply_all(start, batch).0;
    lemma_version_key_marks(scope, user_id);
    lemma_run_keeps_counter(contents, before, scope, user_id);
    lemma_traffic_is_tame(write);
    lemma_tame_batch(start, batch, counter);
    lemma_apply_all_len(start, batch);
    lemma_write_bumps(write, scope, user_id);
    lemma_bumping_batch(start, batch, counter, write.bump_index(scope));
    lemma_run_keeps_counter(written, after, scope, user_id);
    lemma_resolve_reads_counter(run(written, after), scope, user_id);
    let read = apply_all(run(written, after), resolve_batch(scope, user_id)).0;
    if scope.page_key_text(user_id, int_text(counter_at(read, counter)), page)
        == scope.page_key_text(user_id, int_text(old_generation), old_page) {
        lemma_page_key_injective(
            scope,
            user_id,
            counter_at(read, counter),
            page,
            old_generation,
            old_page,
        );
    }
}

/// The number of batches of a run that are writes to the given scope of the
/// given user and that the store carried out in full.
pub open spec fn carried_writes(
    contents: Contents,
    trace: Seq<Traffic>,
    scope: Scope,
    user_id: u128,
) -> nat
    decreases trace.len(),
{
    if trace.len() == 0 {
        0
    } else {
        let earlier = carried_writes(contents, trace.drop_last(), scope, user_id);
        let start = run(contents, trace.drop_last());
        if trace.last().writes_to(scope, user_id) && crate::store::all_carried_out(
            apply_all(start, trace.last().commands()).1,
        ) {
            earlier + 1
        } else {
            earlier
        }
    }
}

/// Every write raises the generation. After any run of the service's
/// batches, the generation of a scope stands above where it stood by at
/// least the number of writes to the scope that the store carried out: n
/// writes put the generation at least n above every generation from before
/// the first of them.
pub proof fn law_writes_raise_generation(
    contents: Contents,
    trace: Seq<Traffic>,
    scope: Scope,
    user_id: u128,
)
    requires
        counter_ok(contents, scope.version_key_text(user_id)),
    ensures
        counter_at(run(contents, trace), scope.version_key_text(user_id)) >= counter_at(
            contents,
            scope.version_key_text(user_id),
        ) + carried_writes(contents, trace, scope, user_id),
    decreases trace.len(),
{
    if trace.len() > 0 {
        let counter = scope.version_key_text(user_id);
        let start = run(contents, trace.drop_last());
        let last = trace.last();
        law_writes_raise_generation(contents, trace.drop_last(), scope, user_id);
        lemma_run_keeps_counter(contents, trace.drop_last(), scope, user_id);
        lemma_version_key_marks(scope, user_id);
        lemma_traffic_is_tame(last);
        lemma_tame_batch(start, last.commands(), counter);
        if last.writes_to(scope, user_id) && crate::store::all_carried_out(
            apply_all(start, last.commands()).1,
        ) {
            lemma_apply_all_len(start, last.commands());
            lemma_write_bumps(last, scope, user_id);
            lemma_bumping_batch(start, last.commands(), counter, last.bump_index(scope));
        }
    }
}

/// The first read after a write misses the cache. Take a store that the
/// service has settled, any history of batches sent as the flows send them,
/// then a write to a scope that the store carried out. The read that follows
/// resolves the new generation, and finds no page under it, whichever page it
/// asks for: nothing cached before the write is served after it.
pub proof fn law_read_after_write_misses(
    contents: Contents,
    before: Seq<Traffic>,
    write: Traffic,
    scope: Scope,
    user_id: u128,
    page: int,
)
    requires
        settled(contents),
        honest_run(contents, before),
        write.writes_to(scope, user_id),
        crate::store::all_carried_out(apply_all(run(contents, before), write.commands()).1),
    ensures
        ({
            let written = apply_all(run(contents, before), write.commands()).0;
            let (read, replies) = apply_all(written, resolve_batch(scope, user_id));
            let generation = generation_in(replies);
            &&& generation is Some
            &&& payload_in(
                apply_all(
                    read,
                    lookup_batch(scope.page_key_text(user_id, generation->Some_0, page)),
                ).1,
            ) is None
        }),
{
    let counter = scope.version_key_text(user_id);
    let start = run(contents, before);
    let batch = write.commands();
    let written = apply_all(start, batch).0;
    lemma_run_keeps_settled(contents, before);
    lemma_version_key_marks(scope, user_id);
    lemma_traffic_is_tame(write);
    lemma_adds_no_page(write);
    lemma_batch_keeps_settled(start, batch);
    lemma_apply_all_len(start, batch);
    lemma_write_bumps(write, scope, user_id);
    lemma_bumping_batch(start, batch, counter, write.bump_index(scope));
    assert(counter_ok(written, counter));
    lemma_resolve_reads_counter(written, scope, user_id);
    let read = apply_all(written, resolve_batch(scope, user_id)).0;
    assert(written.contains_key(counter));
    assert(read == written);
    let reached = counter_at(written, counter);
    let key = scope.page_key_text(user_id, int_text(reached), page);
    crate::key_shapes::lemma_page_key_marks(scope, user_id, int_text(reached), page);
    assert(no_new_page(start, written));
    if written.contains_key(key) {
        assert(start.contains_key(key));
        assert(reached <= counter_at(start, counter));
    }
    lemma_apply_all_one(read, CommandView::Get { key });
}

/// Whether a command leaves alone what is stored under the key of a
/// generation counter that is present.
pub open spec fn quiet(command: CommandView) -> bool {
    match command {
        CommandView::Get { key } => true,
        CommandView::Exists { key } => true,
        CommandView::SetIfAbsent { key, value } => true,
        CommandView::Increment { key, delta } => false,
        CommandView::SetEx { key, value, ttl_seconds } => !version_marks(marks(key)),
        CommandView::Delete { key } => !version_marks(marks(key)),
    }
}

/// A batch of quiet commands leaves a generation counter that is present as
/// it is.
pub proof fn lemma_quiet_batch(contents: Contents, batch: Seq<CommandView>, counter: Seq<char>)
    requires
        forall|i: int| 0 <= i < batch.len() ==> quiet(#[trigger] batch[i]),
        version_marks(marks(counter)),
        contents.contains_key(counter),
    ensures
        apply_all(contents, batch).0.contains_key(counter),
        apply_all(contents, batch).0[counter] == contents[counter],
    decreases batch.len(),
{
    if batch.len() > 0 {
        lemma_quiet_batch(contents, batch.drop_last(), counter);
        assert(quiet(batch.last()));
    }
}

/// A run of reads leaves a generation counter that is present as it is.
pub proof fn lemma_reads_keep_generation(
    contents: Contents,
    trace: Seq<Traffic>,
    counter: Seq<char>,
)
    requires
        forall|i: int| 0 <= i < trace.len() ==> (#[trigger] trace[i]).is_read(),
        version_marks(marks(counter)),
        contents.contains_key(counter),
    ensures
        run(contents, trace).contains_key(counter),
        run(contents, trace)[counter] == contents[counter],
    decreases trace.len(),
{
    if trace.len() > 0 {
        lemma_reads_keep_generation(contents, trace.drop_last(), counter);
        let last = trace.last();
        assert(last.is_read());
        lemma_traffic_is_tame(last);
        assert forall|i: int| 0 <= i < last.commands().len() implies quiet(
            #[trigger] last.commands()[i],
        ) by {
            assert(crate::traffic::tame(last.commands()[i]));
        }
        lemma_quiet_batch(run(contents, trace.drop_last()), last.commands(), counter);
    }
}

/// Reading twice gives the same bytes, the second time from the cache. A
/// read resolves the generation of its scope; whatever other reads come in
/// between, it ends with its page in the cache, found there or put there.
/// A second read of the same page, with no write in between, resolves the
/// same generation and finds that very payload under the same key.
pub proof fn law_second_read_is_served_from_cache(
    contents: Contents,
    scope: Scope,
    user_id: u128,
    page: int,
    fresh_payload: Seq<char>,
    between: Seq<Traffic>,
)
    requires
        counter_ok(contents, scope.version_key_text(user_id)),
        forall|i: int| 0 <= i < between.len() ==> (#[trigger] between[i]).is_read(),
    ensures
        ({
            let first = apply_all(contents, resolve_batch(scope, user_id));
            let generation = generation_in(first.1);
            let key = scope.page_key_text(user_id, generation->Some_0, page);
            let looked = run(first.0, between);
            let hit = payload_in(apply_all(looked, lookup_batch(key)).1);
            let served = if hit is Some {
                hit->Some_0
            } else {
                fresh_payload
            };
            let kept = if hit is Some {
                looked
            } else {
                apply_all(looked, keep_batch(key, fresh_payload)).0
            };
            let second = apply_all(kept, resolve_batch(scope, user_id));
            &&& generation is Some
            &&& generation_in(second.1) == generation
            &&& payload_in(apply_all(second.0, lookup_batch(key)).1) == Some(served)
        }),
{
    let counter = scope.version_key_text(user_id);
    lemma_version_key_marks(scope, user_id);
    lemma_resolve_reads_counter(contents, scope, user_id);
    let first = apply_all(contents, resolve_batch(scope, user_id));
    let generation = first.0[counter];
    let key = scope.page_key_text(user_id, generation, page);
    crate::key_shapes::lemma_page_key_marks(scope, user_id, generation, page);
    lemma_reads_keep_generation(first.0, between, counter);
    let looked = run(first.0, between);
    let find = CommandView::Get { key };
    lemma_apply_all_one(looked, find);
    let keep = CommandView::SetEx {
        key,
        value: fresh_payload,
        ttl_seconds: crate::keys::CACHE_TTL_SECONDS,
    };
    lemma_apply_all_one(looked, keep);
    let kept = if looked.contains_key(key) {
        looked
    } else {
        apply_all(looked, keep_batch(key, fresh_payload)).0
    };
    assert(kept.contains_key(counter) && kept[counter] == generation);
    assert(counter_ok(first.0, counter));
    assert(counter_ok(kept, counter));
    lemma_resolve_reads_counter(kept, scope, user_id);
    let second = apply_all(kept, resolve_batch(scope, user_id));
    assert(second.0 == kept);
    lemma_apply_all_one(second.0, find);
}

/// A command that deletes, or that bumps a generation counter, puts
/// nothing under the key of a cached expense.
pub proof fn lemma_invalidation_keeps_absent(
    contents: Contents,
    batch: Seq<CommandView>,
    key: Seq<char>,
)
    requires
        !contents.contains_key(key),
        !version_marks(marks(key)),
        forall|i: int|
            0 <= i < batch.len() ==> (#[trigger] batch[i] is Delete || (batch[i] is Increment
                && version_marks(marks(batch[i]->Increment_key)))),
    ensures
        !apply_all(contents, batch).0.contains_key(key),
    decreases batch.len(),
{
    if batch.len() > 0 {
        lemma_invalidation_keeps_absent(contents, batch.drop_last(), key);
        assert(batch.last() is Delete || batch.last() is Increment);
    }
}

/// A write clears the cached copy of the expense it wrote. After the
/// invalidation batch of an edit or a removal, whatever the store held,
/// whether or not the edit moved the expense to another category, and
/// whether or not the store carried out every command, a lookup of the
/// expense finds nothing, so the read that follows goes to the relational
/// store for the fields just written.
pub proof fn law_write_clears_cached_expense(
    contents: Contents,
    category_id: u128,
    user_id: u128,
    expense_id: u128,
    left: Option<u128>,
)
    ensures
        ({
            let key = single_expense_key_text(expense_id, user_id);
            let written = apply_all(
                contents,
                expense_invalidation(category_id, user_id, Some(expense_id), left),
            ).0;
            &&& !written.contains_key(key)
            &&& payload_in(apply_all(written, lookup_batch(key)).1) is None
        }),
{
    let key = single_expense_key_text(expense_id, user_id);
    let strike = CommandView::Delete { key };
    let batch = expense_invalidation(category_id, user_id, Some(expense_id), left);
    let rest = batch.subrange(1, batch.len() as int);
    lemma_single_expense_key_marks(expense_id, user_id);
    lemma_version_key_marks(Scope::Expenses, user_id);
    lemma_version_key_marks(Scope::CategoryExpenses { category_id }, user_id);
    if let Some(previous) = left {
        lemma_version_key_marks(Scope::CategoryExpenses { category_id: previous }, user_id);
    }
    assert(batch[0] == strike);
    assert(batch =~= seq![strike] + rest);
    lemma_apply_all_one(contents, strike);
    lemma_apply_all_append(contents, seq![strike], rest);
    lemma_invalidation_keeps_absent(apply(contents, strike).0, rest, key);
    let written = apply_all(contents, batch).0;
    lemma_apply_all_one(written, CommandView::Get { key });
}

/// Two token identifiers with the same record key are the same identifier.
pub proof fn lemma_refresh_key_injective(a: Seq<char>, b: Seq<char>)
    requires
        refresh_token_key_text(a) == refresh_token_key_text(b),
    ensures
        a == b,
{
    lemma_same_beginning("refresh:"@, a, b);
}

/// A consumed token identifier is off the record. A rotation records the
/// fresh identifier, then strikes the one presented. Whatever the store held
/// before, a check of the presented identifier right after the rotation is
/// answered with 0: a replay is refused. The fresh identifier, where it
/// differs from the presented one, is on record. And the record of every
/// other identifier is as it was.
pub proof fn law_consumed_token_is_off_record(
    contents: Contents,
    presented: Seq<char>,
    fresh: Seq<char>,
)
    ensures
        ({
            let recorded = apply_all(contents, record_batch(fresh)).0;
            let rotated = apply_all(recorded, revoke_batch(presented)).0;
            &&& !rotated.contains_key(refresh_token_key_text(presented))
            &&& apply_all(rotated, check_batch(presented)).1 == seq![ReplyView::Integer(0)]
            &&& fresh != presented ==> rotated.contains_key(refresh_token_key_text(fresh))
                && rotated[refresh_token_key_text(fresh)] == fresh
            &&& fresh != presented ==> apply_all(rotated, check_batch(fresh)).1
                == seq![ReplyView::Integer(1)]
            &&& forall|other: Seq<char>|
                other != presented && other != fresh ==> (rotated.contains_key(
                    #[trigger] refresh_token_key_text(other),
                ) <==> contents.contains_key(refresh_token_key_text(other)))
                    && rotated[refresh_token_key_text(other)]
                    == contents[refresh_token_key_text(other)]
        }),
{
    let record = CommandView::SetEx {
        key: refresh_token_key_text(fresh),
        value: fresh,
        ttl_seconds: crate::keys::REFRESH_TTL_SECONDS,
    };
    let revoke = CommandView::Delete { key: refresh_token_key_text(presented) };
    lemma_apply_all_one(contents, record);
    let recorded = apply_all(contents, record_batch(fresh)).0;
    lemma_apply_all_one(recorded, revoke);
    let rotated = apply_all(recorded, revoke_batch(presented)).0;
    lemma_apply_all_one(rotated, CommandView::Exists { key: refresh_token_key_text(presented) });
    lemma_apply_all_one(rotated, CommandView::Exists { key: refresh_token_key_text(fresh) });
    if fresh != presented {
        if refresh_token_key_text(fresh) == refresh_token_key_text(presented) {
            lemma_refresh_key_injective(fresh, presented);
        }
    }
    assert forall|other: Seq<char>| other != presented && other != fresh implies (
    rotated.contains_key(#[trigger] refresh_token_key_text(other)) <==> contents.contains_key(
        refresh_token_key_text(other),
    )) && rotated[refresh_token_key_text(other)] == contents[refresh_token_key_text(other)] by {
        if refresh_token_key_text(other) == refresh_token_key_text(presented) {
            lemma_refresh_key_injective(other, presented);
        }
        if refresh_token_key_text(other) == refresh_token_key_text(fresh) {
            lemma_refresh_key_injective(other, fresh);
        }
    }
}

/// Whether a command puts nothing under the given key.
pub open spec fn spares(command: CommandView, key: Seq<char>) -> bool {
    match command {
        CommandView::SetEx { key: written, value, ttl_seconds } => written != key,
        CommandView::SetIfAbsent { key: written, value } => written != key,
        CommandView::Increment { key: written, delta } => written != key,
        _ => true,
    }
}

/// A key that is absent stays absent under a batch that puts nothing under
/// it.
pub proof fn lemma_batch_keeps_absent(contents: Contents, batch: Seq<CommandView>, key: Seq<char>)
    requires
        !contents.contains_key(key),
        forall|i: int| 0 <= i < batch.len() ==> spares(#[trigger] batch[i], key),
    ensures
        !apply_all(contents, batch).0.contains_key(key),
    decreases batch.len(),
{
    if batch.len() > 0 {
        lemma_batch_keeps_absent(contents, batch.drop_last(), key);
        assert(spares(batch.last(), key));
    }
}

/// No batch of the service but the recording of a token identifier puts
/// anything under the record key of that identifier.
pub proof fn lemma_traffic_spares_record(traffic: Traffic, token_id: Seq<char>)
    requires
        traffic != (Traffic::RecordToken { token_id }),
    ensures
        forall|i: int|
            0 <= i < traffic.commands().len() ==> spares(
                #[trigger] traffic.commands()[i],
                refresh_token_key_text(token_id),
            ),
{
    let key = refresh_token_key_text(token_id);
    crate::key_shapes::lemma_refresh_key_marks(token_id);
    match traffic {
        Traffic::Resolve { scope, user_id } => {
            lemma_version_key_marks(scope, user_id);
        },
        Traffic::KeepPage { scope, user_id, generation, page, payload } => {
            crate::key_shapes::lemma_page_key_marks(scope, user_id, generation, page);
        },
        Traffic::KeepExpense { expense_id, user_id, payload } => {
            lemma_single_expense_key_marks(expense_id, user_id);
        },
        Traffic::KeepTotal { user_id, payload } => {
            crate::key_shapes::lemma_total_key_marks(user_id);
        },
        Traffic::KeepCategoryTotal { category_id, user_id, payload } => {
            crate::key_shapes::lemma_category_total_key_marks(category_id, user_id);
        },
        Traffic::WriteExpense { category_id, user_id, item, left } => {
            lemma_version_key_marks(Scope::Expenses, user_id);
            lemma_version_key_marks(Scope::CategoryExpenses { category_id }, user_id);
            if let Some(previous) = left {
                lemma_version_key_marks(Scope::CategoryExpenses { category_id: previous }, user_id);
            }
        },
        Traffic::WriteCategory { user_id } => {
            lemma_version_key_marks(Scope::Categories, user_id);
        },
        Traffic::RecordToken { token_id: other } => {
            if refresh_token_key_text(other) == key {
                lemma_refresh_key_injective(other, token_id);
            }
        },
        _ => {},
    }
}

/// A consumed token identifier stays off the record. After the rotation
/// that consumed it, and after any further run of the service's batches in
/// which no session records that very identifier again, a check of the
/// identifier is answered with 0: a replay is refused at any later moment.
pub proof fn law_consumed_token_stays_off_record(
    contents: Contents,
    presented: Seq<char>,
    fresh: Seq<char>,
    later: Seq<Traffic>,
)
    requires
        forall|i: int|
            0 <= i < later.len() ==> #[trigger] later[i] != (Traffic::RecordToken {
                token_id: presented,
            }),
    ensures
        ({
            let recorded = apply_all(contents, record_batch(fresh)).0;
            let rotated = apply_all(recorded, revoke_batch(presented)).0;
            let reached = run(rotated, later);
            &&& !reached.contains_key(refresh_token_key_text(presented))
            &&& apply_all(reached, check_batch(presented)).1 == seq![ReplyView::Integer(0)]
        }),
    decreases later.len(),
{
    let recorded = apply_all(contents, record_batch(fresh)).0;
    let rotated = apply_all(recorded, revoke_batch(presented)).0;
    if later.len() == 0 {
        law_consumed_token_is_off_record(contents, presented, fresh);
    } else {
        law_consumed_token_stays_off_record(contents, presented, fresh, later.drop_last());
        lemma_traffic_spares_record(later.last(), presented);
        lemma_batch_keeps_absent(
            run(rotated, later.drop_last()),
            later.last().commands(),
            refresh_token_key_text(presented),
        );
    }
    lemma_apply_all_one(
        run(rotated, later),
        CommandView::Exists { key: refresh_token_key_text(presented) },
    );
}

/// A key of the cache, without its owner.
pub enum CacheKey {
    /// The generation counter of a scope.
    Version { scope: Scope },
    /// One page of a scope, for one generation.
    Page { scope: Scope, generation: Seq<char>, page: int },
    /// The total of all expenses.
    Total,
    /// The total of one category.
    CategoryTotal { category_id: u128 },
    /// One expense.
    Expense { expense_id: u128 },
}

impl CacheKey {
    /// The key as the store sees it, for one owner.
    pub open spec fn text(self, user_id: u128) -> Seq<char> {
        match self {
            CacheKey::Version { scope } => scope.version_key_text(user_id),
            CacheKey::Page { scope, generation, page } => scope.page_key_text(
                user_id,
                generation,
                page,
            ),
            CacheKey::Total => total_expense_key_text(user_id),
            CacheKey::CategoryTotal { category_id } => category_filter_total_expense_key_text(
                category_id,
                user_id,
            ),
            CacheKey::Expense { expense_id } => single_expense_key_text(expense_id, user_id),
        }
    }
}

/// Every cache key names its owner: the 36 characters after `user:` are the
/// hyphenated form of the owner's identifier.
pub proof fn lemma_key_names_owner(key: CacheKey, user_id: u128)
    ensures
        key.text(user_id).len() >= 41,
        key.text(user_id).subrange(5, 41) == uuid_text(user_id),
{
    lemma_user_prefix_len(user_id);
    reveal_strlit("user:");
    let text = key.text(user_id);
    let start = crate::keys::user_prefix(user_id);
    assert(start.subrange(5, 41) =~= uuid_text(user_id));
    assert forall|i: int| 0 <= i < 41 implies text[i] == start[i] by {
        match key {
            CacheKey::Version { scope: Scope::CategoryExpenses { category_id } } => {
                lemma_category_filter_prefix_len(category_id, user_id);
            },
            CacheKey::Page { scope: Scope::CategoryExpenses { category_id }, generation, page } => {
                lemma_category_filter_prefix_len(category_id, user_id);
            },
            CacheKey::CategoryTotal { category_id } => {
                lemma_category_filter_prefix_len(category_id, user_id);
            },
            _ => {},
        }
    }
    assert(text.len() >= 41) by {
        match key {
            CacheKey::Version { scope: Scope::CategoryExpenses { category_id } } => {
                lemma_category_filter_prefix_len(category_id, user_id);
            },
            CacheKey::Page { scope: Scope::CategoryExpenses { category_id }, generation, page } => {
                lemma_category_filter_prefix_len(category_id, user_id);
            },
            CacheKey::CategoryTotal { category_id } => {
                lemma_category_filter_prefix_len(category_id, user_id);
            },
            _ => {},
        }
    }
    assert(text.subrange(5, 41) =~= start.subrange(5, 41));
}

/// Users share no cache entry: a key of one user is never a key of
/// another, whatever the kinds of the two entries.
pub proof fn law_users_share_no_key(first: CacheKey, a: u128, second: CacheKey, b: u128)
    requires
        first.text(a) == second.text(b),
    ensures
        a == b,
{
    lemma_key_names_owner(first, a);
    lemma_key_names_owner(second, b);
    lemma_uuid_text_injective(a, b);
}

} // verus!
