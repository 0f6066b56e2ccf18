//! A key-value store in memory that answers as the model says: the store
//! that the flows are tried against where no remote store is at hand.
//! Entries never expire by themselves; `expire` stands for the passing of
//! time.

use vstd::prelude::*;
use crate::cache::Outcome;
use crate::store::{
    all_carried_out, apply, apply_all, counter_at, counter_ok, lemma_counter_value, Command,
    CommandView, Contents, Reply, ReplyView,
};
use crate::text::{decimal_of, parse_int};

verus! {

struct Entry {
    key: String,
    value: String,
}

/// A key-value store in memory.
pub struct MemoryStore {
    entries: Vec<Entry>,
    model: Ghost<Contents>,
}

impl View for MemoryStore {
    type V = Contents;

    closed spec fn view(&self) -> Contents {
        self.model@
    }
}

impl MemoryStore {
    /// Whether the store is consistent: it holds each key once, and its
    /// entries are what its view says.
    pub closed spec fn wf(&self) -> bool {
        &&& forall|i: int|
            0 <= i < self.entries.len() ==> self.model@.contains_key(
                #[trigger] self.entries[i].key@,
            ) && self.model@[self.entries[i].key@] == self.entries[i].value@
        &&& forall|k: Seq<char>| #[trigger]
            self.model@.contains_key(k) ==> exists|i: int|
                0 <= i < self.entries.len() && self.entries[i].key@ == k
        &&& forall|i: int, j: int|
            0 <= i < j < self.entries.len() ==> self.entries[i].key@ != self.entries[j].key@
    }

    /// An empty store.
    pub fn new() -> (store: Self)
        ensures
            store.wf(),
            store@ == Map::<Seq<char>, Seq<char>>::empty(),
    {
        MemoryStore { entries: Vec::new(), model: Ghost(Map::empty()) }
    }

    fn position(&self, key: &String) -> (at: Option<usize>)
        requires
            self.wf(),
        ensures
            match at {
                Some(i) => i < self.entries.len() && self.entries[i as int].key@ == key@,
                None => !self@.contains_key(key@),
            },
    {
        let mut i: usize = 0;
        while i < self.entries.len()
            invariant
                i <= self.entries.len(),
                forall|j: int| 0 <= j < i ==> self.entries[j].key@ != key@,
            decreases self.entries.len() - i,
        {
            if self.entries[i].key == *key {
                return Some(i);
            }
            i = i + 1;
        }
        None
    }

    fn put(&mut self, key: &String, value: String)
        requires
            old(self).wf(),
        ensures
            final(self).wf(),
            final(self)@ == old(self)@.insert(key@, value@),
    {
        let ghost before = self.entries@;
        let ghost text = value@;
        match self.position(key) {
            Some(i) => {
                self.entries.set(i, Entry { key: key.clone(), value });
                self.model = Ghost(self.model@.insert(key@, text));
                assert forall|k: Seq<char>| #[trigger]
                    self.model@.contains_key(k) implies exists|j: int|
                    0 <= j < self.entries.len() && self.entries[j].key@ == k by {
                    if k == key@ {
                        assert(self.entries[i as int].key@ == k);
                    } else {
                        let j = choose|j: int| 0 <= j < before.len() && before[j].key@ == k;
                        assert(self.entries[j].key@ == k);
                    }
                }
            },
            None => {
                self.entries.push(Entry { key: key.clone(), value });
                self.model = Ghost(self.model@.insert(key@, text));
                assert forall|k: Seq<char>| #[trigger]
                    self.model@.contains_key(k) implies exists|j: int|
                    0 <= j < self.entries.len() && self.entries[j].key@ == k by {
                    if k == key@ {
                        assert(self.entries[before.len() as int].key@ == k);
                    } else {
                        let j = choose|j: int| 0 <= j < before.len() && before[j].key@ == k;
                        assert(self.entries[j].key@ == k);
                    }
                }
            },
        }
    }

    fn strike(&mut self, key: &String) -> (was_there: bool)
        requires
            old(self).wf(),
        ensures
            final(self).wf(),
            final(self)@ == old(self)@.remove(key@),
            was_there == old(self)@.contains_key(key@),
    {
        let ghost before = self.entries@;
        match self.position(key) {
            Some(i) => {
                self.entries.remove(i);
                self.model = Ghost(self.model@.remove(key@));
                assert forall|k: Seq<char>| #[trigger]
                    self.model@.contains_key(k) implies exists|j: int|
                    0 <= j < self.entries.len() && self.entries[j].key@ == k by {
                    let j = choose|j: int| 0 <= j < before.len() && before[j].key@ == k;
                    if j < i {
                        assert(self.entries[j].key@ == k);
                    } else {
                        assert(self.entries[j - 1].key@ == k);
                    }
                }
                assert forall|a: int, b: int| 0 <= a < b < self.entries.len() implies
                    self.entries[a].key@ != self.entries[b].key@ by {
                    let a0 = if a < i { a } else { a + 1 };
                    let b0 = if b < i { b } else { b + 1 };
                    assert(before[a0].key@ != before[b0].key@);
                }
                assert forall|j: int| 0 <= j < self.entries.len() implies
                    self.model@.contains_key(#[trigger] self.entries[j].key@)
                    && self.model@[self.entries[j].key@] == self.entries[j].value@ by {
                    let j0 = if j < i { j } else { j + 1 };
                    assert(before[j0].key@ == self.entries[j].key@);
                    assert(before[j0].key@ != before[i as int].key@);
                }
                true
            },
            None => {
                assert(self.model@.remove(key@) =~= self.model@);
                false
            },
        }
    }

    /// Looks a key up.
    pub fn get(&self, key: &String) -> (value: Option<String>)
        requires
            self.wf(),
        ensures
            match value {
                Some(text) => self@.contains_key(key@) && self@[key@] == text@,
                None => !self@.contains_key(key@),
            },
    {
        match self.position(key) {
            Some(i) => Some(self.entries[i].value.clone()),
            None => None,
        }
    }

    /// Removes a key, as the passing of its time to live does.
    pub fn expire(&mut self, key: &String)
        requires
            old(self).wf(),
        ensures
            final(self).wf(),
            final(self)@ == old(self)@.remove(key@),
    {
        let _ = self.strike(key);
    }

    /// Carries out one command. A command that the model refuses is an
    /// error and leaves the store as it was.
    pub fn execute(&mut self, command: &Command) -> (reply: Result<Reply, String>)
        requires
            old(self).wf(),
        ensures
            final(self).wf(),
            final(self)@ == apply(old(self)@, command@).0,
            match reply {
                Ok(r) => r@ == apply(old(self)@, command@).1,
                Err(_) => apply(old(self)@, command@).1 is Error,
            },
    {
        match command {
            Command::Get { key } => match self.get(key) {
                Some(text) => Ok(Reply::Text(text)),
                None => Ok(Reply::Nil),
            },
            Command::SetEx { key, value, ttl_seconds: _ } => {
                self.put(key, value.clone());
                Ok(Reply::Okay)
            },
            Command::SetIfAbsent { key, value } => match self.position(key) {
                Some(_) => Ok(Reply::Integer(0)),
                None => {
                    self.put(key, value.clone());
                    Ok(Reply::Integer(1))
                },
            },
            Command::Increment { key, delta } => {
                let current: i64 = match self.get(key) {
                    None => 0,
                    Some(text) => match parse_int(text.as_str()) {
                        None => {
                            return Err(String::from_str("value is not an integer"));
                        },
                        Some(n) => {
                            proof {
                                lemma_counter_value(n as int);
                            }
                            n
                        },
                    },
                };
                assert(counter_ok(self@, key@) && counter_at(self@, key@) == current);
                match current.checked_add(*delta) {
                    None => Err(String::from_str("increment would overflow")),
                    Some(sum) => {
                        self.put(key, decimal_of(sum));
                        Ok(Reply::Integer(sum))
                    },
                }
            },
            Command::Delete { key } => {
                if self.strike(key) {
                    Ok(Reply::Integer(1))
                } else {
                    Ok(Reply::Integer(0))
                }
            },
            Command::Exists { key } => match self.position(key) {
                Some(_) => Ok(Reply::Integer(1)),
                None => Ok(Reply::Integer(0)),
            },
        }
    }

    /// Carries out a batch, command by command with nothing in between.
    /// Every command is carried out, also after one that was refused, and
    /// nothing is rolled back, as the model says; the outcome is the
    /// replies, or the first failure.
    pub fn execute_all(&mut self, batch: &Vec<Command>) -> (outcome: Outcome)
        requires
            old(self).wf(),
        ensures
            final(self).wf(),
            final(self)@ == apply_all(old(self)@, batch.deep_view()).0,
            match outcome {
                Ok(replies) => replies.deep_view() == apply_all(old(self)@, batch.deep_view()).1
                    && all_carried_out(apply_all(old(self)@, batch.deep_view()).1),
                Err(_) => !all_carried_out(apply_all(old(self)@, batch.deep_view()).1),
            },
    {
        let ghost start = self@;
        let ghost commands = batch.deep_view();
        let mut replies: Vec<Reply> = Vec::new();
        let mut failure: Option<String> = None;
        let mut i: usize = 0;
        assert(commands.take(0) =~= Seq::<CommandView>::empty());
        assert(replies.deep_view() =~= Seq::<ReplyView>::empty());
        while i < batch.len()
            invariant
                i <= batch.len(),
                self.wf(),
                commands == batch.deep_view(),
                self@ == apply_all(start, commands.take(i as int)).0,
                failure is None ==> replies.deep_view() == apply_all(
                    start,
                    commands.take(i as int),
                ).1 && all_carried_out(apply_all(start, commands.take(i as int)).1),
                failure is Some ==> !all_carried_out(
                    apply_all(start, commands.take(i as int)).1,
                ),
            decreases batch.len() - i,
        {
            let ghost so_far = apply_all(start, commands.take(i as int));
            let ghost shown = replies.deep_view();
            proof {
                let longer = commands.take(i as int + 1);
                assert(longer.drop_last() =~= commands.take(i as int));
                assert(longer.last() == batch[i as int]@);
                crate::store::lemma_apply_all_len(start, commands.take(i as int));
            }
            match self.execute(&batch[i]) {
                Ok(reply) => {
                    if failure.is_none() {
                        replies.push(reply);
                        assert(replies.deep_view() =~= shown.push(reply@));
                    } else {
                        let ghost at = choose|at: int|
                            0 <= at < so_far.1.len() && so_far.1[at] is Error;
                        assert(apply_all(start, commands.take(i as int + 1)).1[at] is Error);
                    }
                },
                Err(cause) => {
                    if failure.is_none() {
                        failure = Some(cause);
                    }
                    assert(apply_all(start, commands.take(i as int + 1)).1[i as int] is Error);
                },
            }
            i = i + 1;
        }
        assert(commands.take(batch.len() as int) =~= commands);
        match failure {
            Some(cause) => Err(cause),
            None => Ok(replies),
        }
    }
}

} // verus!
