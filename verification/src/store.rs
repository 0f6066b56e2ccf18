//! The key-value store as the service sees it: the commands it sends, the
//! replies it reads, and a model of how a store answers.
//!
//! The store itself is remote. The model below says what a store that keeps
//! strings and decimal counters does with each command; the laws of the cache
//! and of token rotation are stated over it.

use vstd::prelude::*;
use crate::text::{int_text, is_int_text, lemma_int_text_injective};

verus! {

/// One command for the key-value store.
pub enum Command {
    /// Read the value under `key`.
    Get { key: String },
    /// Write `value` under `key`, to expire after `ttl_seconds`.
    SetEx { key: String, value: String, ttl_seconds: u64 },
    /// Write `value` under `key` unless the key is present.
    SetIfAbsent { key: String, value: String },
    /// Add `delta` to the counter under `key`; an absent counter counts as 0.
    Increment { key: String, delta: i64 },
    /// Remove `key`.
    Delete { key: String },
    /// Ask whether `key` is present.
    Exists { key: String },
}

/// A command with its strings as sequences of characters.
pub enum CommandView {
    Get { key: Seq<char> },
    SetEx { key: Seq<char>, value: Seq<char>, ttl_seconds: u64 },
    SetIfAbsent { key: Seq<char>, value: Seq<char> },
    Increment { key: Seq<char>, delta: i64 },
    Delete { key: Seq<char> },
    Exists { key: Seq<char> },
}

impl View for Command {
    type V = CommandView;

    open spec fn view(&self) -> CommandView {
        match *self {
            Command::Get { key } => CommandView::Get { key: key@ },
            Command::SetEx { key, value, ttl_seconds } => CommandView::SetEx {
                key: key@,
                value: value@,
                ttl_seconds,
            },
            Command::SetIfAbsent { key, value } => CommandView::SetIfAbsent {
                key: key@,
                value: value@,
            },
            Command::Increment { key, delta } => CommandView::Increment { key: key@, delta },
            Command::Delete { key } => CommandView::Delete { key: key@ },
            Command::Exists { key } => CommandView::Exists { key: key@ },
        }
    }
}

impl DeepView for Command {
    type V = CommandView;

    open spec fn deep_view(&self) -> CommandView {
        self@
    }
}

/// One reply of the key-value store to a command that it carried out.
pub enum Reply {
    /// Nothing is stored under the key.
    Nil,
    /// The stored value.
    Text(String),
    /// A count, a flag (0 or 1) or the new value of a counter.
    Integer(i64),
    /// The command was carried out and has nothing to report.
    Okay,
}

/// A reply with its string as a sequence of characters; `Error` stands for
/// a command that the store refused.
pub enum ReplyView {
    Nil,
    Text(Seq<char>),
    Integer(int),
    Okay,
    Error,
}

impl View for Reply {
    type V = ReplyView;

    open spec fn view(&self) -> ReplyView {
        match *self {
            Reply::Nil => ReplyView::Nil,
            Reply::Text(text) => ReplyView::Text(text@),
            Reply::Integer(n) => ReplyView::Integer(n as int),
            Reply::Okay => ReplyView::Okay,
        }
    }
}

impl DeepView for Reply {
    type V = ReplyView;

    open spec fn deep_view(&self) -> ReplyView {
        self@
    }
}

/// What the store holds: a value for each key that is present.
pub type Contents = Map<Seq<char>, Seq<char>>;

/// Whether `text` is the decimal notation of a 64-bit signed integer.
pub open spec fn is_counter_text(text: Seq<char>) -> bool {
    is_int_text(text)
}

/// The integer that a counter text denotes.
pub open spec fn counter_value(text: Seq<char>) -> int
    recommends
        is_counter_text(text),
{
    choose|n: int| i64::MIN <= n <= i64::MAX && #[trigger] int_text(n) == text
}

/// The decimal notation of a 64-bit integer denotes that integer.
pub proof fn lemma_counter_value(n: int)
    requires
        i64::MIN <= n <= i64::MAX,
    ensures
        is_counter_text(int_text(n)),
        counter_value(int_text(n)) == n,
{
    assert(is_counter_text(int_text(n)));
    lemma_int_text_injective(counter_value(int_text(n)), n);
}

/// The number that the counter under `key` has reached: 0 while the key is
/// absent.
pub open spec fn counter_at(contents: Contents, key: Seq<char>) -> int {
    if contents.contains_key(key) {
        counter_value(contents[key])
    } else {
        0
    }
}

/// Whether the entry under `key`, if there is one, is a counter.
pub open spec fn counter_ok(contents: Contents, key: Seq<char>) -> bool {
    contents.contains_key(key) ==> is_counter_text(contents[key])
}

/// How the store answers one command: its contents afterwards, and its reply.
pub open spec fn apply(contents: Contents, command: CommandView) -> (Contents, ReplyView) {
    match command {
        CommandView::Get { key } => if contents.contains_key(key) {
            (contents, ReplyView::Text(contents[key]))
        } else {
            (contents, ReplyView::Nil)
        },
        CommandView::SetEx { key, value, ttl_seconds } => (
            contents.insert(key, value),
            ReplyView::Okay,
        ),
        CommandView::SetIfAbsent { key, value } => if contents.contains_key(key) {
            (contents, ReplyView::Integer(0))
        } else {
            (contents.insert(key, value), ReplyView::Integer(1))
        },
        CommandView::Increment { key, delta } => if !counter_ok(contents, key) {
            (contents, ReplyView::Error)
        } else {
            let sum = counter_at(contents, key) + delta;
            if i64::MIN <= sum <= i64::MAX {
                (contents.insert(key, int_text(sum)), ReplyView::Integer(sum))
            } else {
                (contents, ReplyView::Error)
            }
        },
        CommandView::Delete { key } => if contents.contains_key(key) {
            (contents.remove(key), ReplyView::Integer(1))
        } else {
            (contents, ReplyView::Integer(0))
        },
        CommandView::Exists { key } => if contents.contains_key(key) {
            (contents, ReplyView::Integer(1))
        } else {
            (contents, ReplyView::Integer(0))
        },
    }
}

/// How the store answers a batch: the commands are carried out in order,
/// with nothing in between, and each gets its reply. No other command is
/// carried out between two of a batch, so that nobody sees a batch half
/// done.
///
/// Where the model departs from a store that takes a batch whole or not at
/// all: a command that the store refuses leaves the store as it was, and
/// the rest of the batch is carried out all the same; nothing is rolled
/// back. The two readings differ only on a batch that holds a refused
/// command, that is, an increment of what is no counter or beyond the
/// largest number. The flows end a write on such a batch and never commit
/// it, and what the rest of the batch did is to invalidate: it bumps
/// counters and deletes cached values, which puts nothing stale in reach.
/// The laws that speak of a write ask that the store carried out its batch
/// in full; those that speak of a run hold for every run of this model.
pub open spec fn apply_all(contents: Contents, commands: Seq<CommandView>) -> (
    Contents,
    Seq<ReplyView>,
)
    decreases commands.len(),
{
    if commands.len() == 0 {
        (contents, Seq::empty())
    } else {
        let (before, replies) = apply_all(contents, commands.drop_last());
        let (after, reply) = apply(before, commands.last());
        (after, replies.push(reply))
    }
}

/// Whether the store carried out every command of a batch.
pub open spec fn all_carried_out(replies: Seq<ReplyView>) -> bool {
    forall|i: int| 0 <= i < replies.len() ==> !(#[trigger] replies[i] is Error)
}

/// A batch gets one reply for each command.
pub proof fn lemma_apply_all_len(contents: Contents, commands: Seq<CommandView>)
    ensures
        apply_all(contents, commands).1.len() == commands.len(),
    decreases commands.len(),
{
    if commands.len() > 0 {
        lemma_apply_all_len(contents, commands.drop_last());
    }
}

/// A batch of one command is that command.
pub proof fn lemma_apply_all_one(contents: Contents, command: CommandView)
    ensures
        apply_all(contents, seq![command]).0 == apply(contents, command).0,
        apply_all(contents, seq![command]).1 == seq![apply(contents, command).1],
{
    let commands = seq![command];
    assert(commands.drop_last() =~= Seq::<CommandView>::empty());
    assert(apply_all(contents, commands.drop_last()) == (contents, Seq::<ReplyView>::empty()));
    assert(commands.last() == command);
    assert(Seq::<ReplyView>::empty().push(apply(contents, command).1) =~= seq![
        apply(contents, command).1,
    ]);
}

/// Carrying out a batch with one more command at its end is carrying out the
/// batch, then the command.
pub proof fn lemma_apply_all_push(
    contents: Contents,
    commands: Seq<CommandView>,
    command: CommandView,
)
    ensures
        apply_all(contents, commands.push(command)).0 == apply(
            apply_all(contents, commands).0,
            command,
        ).0,
        apply_all(contents, commands.push(command)).1 == apply_all(contents, commands).1.push(
            apply(apply_all(contents, commands).0, command).1,
        ),
{
    let longer = commands.push(command);
    assert(longer.drop_last() =~= commands);
    assert(longer.last() == command);
}

/// Carrying out two batches one after the other is carrying out the one
/// batch made of both.
pub proof fn lemma_apply_all_append(
    contents: Contents,
    first: Seq<CommandView>,
    second: Seq<CommandView>,
)
    ensures
        apply_all(contents, first + second).0 == apply_all(
            apply_all(contents, first).0,
            second,
        ).0,
        apply_all(contents, first + second).1 == apply_all(contents, first).1 + apply_all(
            apply_all(contents, first).0,
            second,
        ).1,
    decreases second.len(),
{
    if second.len() == 0 {
        assert(first + second =~= first);
        assert(apply_all(contents, first).1 + Seq::<ReplyView>::empty() =~= apply_all(
            contents,
            first,
        ).1);
    } else {
        lemma_apply_all_append(contents, first, second.drop_last());
        assert((first + second).drop_last() =~= first + second.drop_last());
        assert((first + second).last() == second.last());
        let middle = apply_all(contents, first).0;
        assert(apply_all(contents, first).1 + apply_all(middle, second.drop_last()).1.push(
            apply(apply_all(middle, second.drop_last()).0, second.last()).1,
        ) =~= (apply_all(contents, first).1 + apply_all(middle, second.drop_last()).1).push(
            apply(apply_all(middle, second.drop_last()).0, second.last()).1,
        ));
    }
}

} // verus!
