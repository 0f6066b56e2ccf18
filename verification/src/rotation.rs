//! The records that keep refresh tokens alive: a token is valid for renewal
//! exactly while the key-value store holds the record of its identifier.

use vstd::prelude::*;
use crate::keys::{refresh_token_key, refresh_token_key_text, REFRESH_TTL_SECONDS};
use crate::store::{Command, CommandView};

verus! {

/// The batch that records a token identifier for seven days.
pub open spec fn record_batch(token_id: Seq<char>) -> Seq<CommandView> {
    seq![
        CommandView::SetEx {
            key: refresh_token_key_text(token_id),
            value: token_id,
            ttl_seconds: REFRESH_TTL_SECONDS,
        },
    ]
}

/// The batch that asks whether a token identifier is on record.
pub open spec fn check_batch(token_id: Seq<char>) -> Seq<CommandView> {
    seq![CommandView::Exists { key: refresh_token_key_text(token_id) }]
}

/// The batch that strikes a token identifier from the record.
pub open spec fn revoke_batch(token_id: Seq<char>) -> Seq<CommandView> {
    seq![CommandView::Delete { key: refresh_token_key_text(token_id) }]
}

/// Builds the batch that records a token identifier.
pub fn record_commands(token_id: &String) -> (batch: Vec<Command>)
    ensures
        batch.deep_view() == record_batch(token_id@),
{
    let mut batch: Vec<Command> = Vec::new();
    batch.push(
        Command::SetEx {
            key: refresh_token_key(token_id.as_str()),
            value: token_id.clone(),
            ttl_seconds: REFRESH_TTL_SECONDS,
        },
    );
    assert(batch.deep_view() =~= record_batch(token_id@));
    batch
}

/// Builds the batch that asks whether a token identifier is on record.
pub fn check_commands(token_id: &String) -> (batch: Vec<Command>)
    ensures
        batch.deep_view() == check_batch(token_id@),
{
    let mut batch: Vec<Command> = Vec::new();
    batch.push(Command::Exists { key: refresh_token_key(token_id.as_str()) });
    assert(batch.deep_view() =~= check_batch(token_id@));
    batch
}

/// Builds the batch that strikes a token identifier from the record.
pub fn revoke_commands(token_id: &String) -> (batch: Vec<Command>)
    ensures
        batch.deep_view() == revoke_batch(token_id@),
{
    let mut batch: Vec<Command> = Vec::new();
    batch.push(Command::Delete { key: refresh_token_key(token_id.as_str()) });
    assert(batch.deep_view() =~= revoke_batch(token_id@));
    batch
}

} // verus!
