//! The store: a durable counter that issues identifiers, a durable map that holds
//! the records in their stored form, and the operations on quizzes over the two.
//!
//! What is stored under an identifier is bytes. Reading them back as a record can
//! fail, and whether it does is not decided by the bytes alone, so the contracts of
//! the operations that read say what holds of every record that comes back, and
//! the functions that take the record as an argument say what an edit, a vote and
//! a deletion make of it.
//!
//! The counter only ever goes up, and an identifier is issued by moving the
//! counter to it. So no identifier is issued twice, and one that the counter has
//! reached and that holds nothing stays empty under every operation but a direct
//! insertion.

use crate::codec::stored_form;
use crate::error::{
    allocation_text, delete_not_found_text, full_tally_text, invalid_choice_text,
    invalid_input_text, no_counter_text, no_records_text, not_authorized_text, not_found_text,
    oversize_text, unreadable_text, update_not_found_text, vote_not_found_text, Error,
};
use crate::record::{text_of, texts, Quiz, QuizPayload, QuizView};
use crate::stable::{
    counter_partition, counter_value, entries, fetch, holds_key, open_structures, put,
    read_counter, records_partition, stored_bytes, take, write_counter, CounterCell, RecordMap,
};
use vstd::prelude::*;

verus! {

/// The partition of the durable memory that holds the identifier counter.
pub const COUNTER_PARTITION: u8 = 0;

/// The partition of the durable memory that holds the records.
pub const RECORDS_PARTITION: u8 = 1;

/// The value the counter starts from in a memory that holds none yet. The first
/// identifier issued is the one after it.
pub const COUNTER_SEED: u64 = 0;

/// The durable state: the identifier counter and the records. With them goes a
/// note, kept for the proofs alone, of the identifiers that were issued since the
/// store was opened.
pub struct Store {
    counter: CounterCell,
    records: RecordMap,
    issued: Ghost<Set<u64>>,
}

/// Whether `id` is the identifier to issue next: the least one above `counter`
/// that no record is stored under.
pub open spec fn is_next_free(counter: u64, used: Set<u64>, id: u64) -> bool {
    &&& counter < id
    &&& !used.contains(id)
    &&& forall|k: u64| counter < k < id ==> #[trigger] used.contains(k)
}

/// Whether there is an identifier left to issue.
pub open spec fn has_free_id(counter: u64, used: Set<u64>) -> bool {
    exists|id: u64| counter < id && !#[trigger] used.contains(id)
}

impl Store {
    /// The last identifier that was issued, or the seed.
    pub closed spec fn counter(&self) -> u64 {
        counter_value(self.counter)
    }

    /// The identifiers that were issued since the store was opened: those of the
    /// note that the counter has reached, which is all of them.
    pub closed spec fn issued(&self) -> Set<u64> {
        Set::new(|id: u64| self.issued@.contains(id) && id <= counter_value(self.counter))
    }

    /// The stored form of every record, by identifier.
    pub closed spec fn bytes(&self) -> Map<u64, Seq<u8>> {
        stored_bytes(self.records)
    }

    /// The partitions of the durable memory that hold the counter and the records.
    pub closed spec fn layout(&self) -> (u8, u8) {
        (counter_partition(self.counter), records_partition(self.records))
    }

    /// The identifiers in use.
    pub open spec fn ids(&self) -> Set<u64> {
        self.bytes().dom()
    }

    /// Whether something is stored under `id`.
    pub open spec fn holds(&self, id: u64) -> bool {
        self.bytes().contains_key(id)
    }

    /// Whether `id` is out of use for good: the counter has reached it and nothing
    /// is stored under it.
    pub open spec fn retired(&self, id: u64) -> bool {
        id <= self.counter() && !self.holds(id)
    }

    /// Whether the store differs from `before` in its records at most: the
    /// counter, the identifiers issued and the layout are the same.
    pub open spec fn keeps_counter(&self, before: &Store) -> bool {
        &&& self.counter() == before.counter()
        &&& self.issued() == before.issued()
        &&& self.layout() == before.layout()
    }

    /// Whether the store is as `before` was.
    pub open spec fn same_as(&self, before: &Store) -> bool {
        self.keeps_counter(before) && self.bytes() == before.bytes()
    }

    /// Whether the store is as `before` was, but for its records, which are
    /// `records`.
    pub open spec fn holds_now(&self, before: &Store, records: Map<u64, Seq<u8>>) -> bool {
        self.keeps_counter(before) && self.bytes() == records
    }

    /// Whether every identifier that was out of use for good in `before` still is.
    pub open spec fn keeps_retired(&self, before: &Store) -> bool {
        forall|id: u64| #[trigger] before.retired(id) ==> self.retired(id)
    }

    /// Opens the store in the default memory: the counter in one partition, the
    /// records in another. What the memory already holds is kept. The only failure
    /// is that the counter cannot be set up. The store is to be opened once in a
    /// process.
    pub fn init() -> (opened: Result<Store, Error>)
        ensures
            match opened {
                Ok(store) => store.layout() == (COUNTER_PARTITION, RECORDS_PARTITION)
                    && store.issued() == Set::<u64>::empty(),
                Err(e) => e is AllocationFault && e.text() == no_counter_text(),
            },
    {
        Store::assemble(open_structures(COUNTER_PARTITION, RECORDS_PARTITION, COUNTER_SEED))
    }

    /// The store over the two structures that were opened, or the failure to open
    /// them.
    pub fn assemble(opened: Option<(CounterCell, RecordMap)>) -> (store: Result<Store, Error>)
        ensures
            match (opened, store) {
                (Some((counter, records)), Ok(made)) => {
                    &&& made.counter() == counter_value(counter)
                    &&& made.bytes() == stored_bytes(records)
                    &&& made.layout() == (counter_partition(counter), records_partition(records))
                    &&& made.issued() == Set::<u64>::empty()
                },
                (None, Err(e)) => e is AllocationFault && e.text() == no_counter_text(),
                _ => false,
            },
    {
        match opened {
            Some((counter, records)) => Ok(Store { counter, records, issued: Ghost(Set::empty()) }),
            None => Err(Error::no_counter()),
        }
    }

    /// The last identifier that was issued, or the seed. The counter has reached
    /// every identifier that was issued since the store was opened.
    pub fn last_id(&self) -> (id: u64)
        ensures
            id == self.counter(),
            forall|issued: u64| #[trigger] self.issued().contains(issued) ==> issued <= id,
    {
        read_counter(&self.counter)
    }

    /// Whether something is stored under `id`.
    pub fn contains(&self, id: u64) -> (found: bool)
        ensures
            found == self.holds(id),
    {
        holds_key(&self.records, id)
    }
}

/// The result of an allocation once the counter was written, or could not be.
pub fn settle_allocation(candidate: u64, written: bool) -> (issued: Result<u64, Error>)
    ensures
        written ==> issued == Ok::<u64, Error>(candidate),
        !written ==> (issued matches Err(e) && e is AllocationFault && e.text() == allocation_text()),
{
    if written {
        Ok(candidate)
    } else {
        Err(Error::allocation_fault())
    }
}

/// Finds the identifier to issue next, without issuing it: the least one above
/// the counter that no record is stored under, if there is one.
pub fn peek_next_id(store: &Store) -> (next: Option<u64>)
    ensures
        match next {
            Some(id) => is_next_free(store.counter(), store.ids(), id),
            None => !has_free_id(store.counter(), store.ids()),
        },
{
    let start = read_counter(&store.counter);
    if start == u64::MAX {
        return None;
    }
    let mut candidate: u64 = start + 1;
    while holds_key(&store.records, candidate)
        invariant
            start == store.counter(),
            start < candidate,
            forall|k: u64| start < k < candidate ==> #[trigger] store.ids().contains(k),
        decreases u64::MAX - candidate,
    {
        if candidate == u64::MAX {
            return None;
        }
        candidate += 1;
    }
    Some(candidate)
}

/// Issues a fresh identifier: the least one above the counter that no record is
/// stored under. The counter is moved to it, so that it is never issued again.
/// Fails where no such identifier is left, or where the counter cannot be written;
/// the store is then as before.
pub fn next_id(store: &mut Store) -> (issued: Result<u64, Error>)
    ensures
        final(store).bytes() == old(store).bytes(),
        final(store).layout() == old(store).layout(),
        final(store).keeps_retired(old(store)),
        match issued {
            Ok(id) => {
                &&& is_next_free(old(store).counter(), old(store).ids(), id)
                &&& final(store).counter() == id
                &&& !old(store).issued().contains(id)
                &&& final(store).issued() == old(store).issued().insert(id)
            },
            Err(e) => e is AllocationFault && e.text() == allocation_text() && final(store).same_as(
                old(store),
            ),
        },
        !has_free_id(old(store).counter(), old(store).ids()) ==> issued is Err,
{
    match peek_next_id(store) {
        Some(candidate) => {
            let ghost before = store.issued();
            let written = write_counter(&mut store.counter, candidate);
            if written {
                store.issued = Ghost(before.insert(candidate));
                assert(store.issued() =~= before.insert(candidate));
            } else {
                assert(store.issued() =~= before);
            }
            settle_allocation(candidate, written)
        },
        None => Err(Error::allocation_fault()),
    }
}

/// What a reading of the bytes stored under `id` comes to: the record that was
/// read, if one was read and it bears that identifier.
pub fn admit_read(id: u64, read: Option<Quiz>) -> (admitted: Result<Quiz, Error>)
    ensures
        match admitted {
            Ok(quiz) => read == Some(quiz) && quiz@.id == id,
            Err(e) => {
                &&& read matches Some(other) ==> other@.id != id
                &&& e is StorageFault
                &&& e.text() == unreadable_text(id)
            },
        },
{
    match read {
        Some(quiz) => if quiz.id == id {
            Ok(quiz)
        } else {
            Err(Error::unreadable(id))
        },
        None => Err(Error::unreadable(id)),
    }
}

/// Reads bytes that were stored under `id` as a record. A record that comes back
/// meets the invariant and bears that identifier.
pub fn read_stored(id: u64, bytes: &Vec<u8>) -> (read: Result<Quiz, Error>)
    ensures
        match read {
            Ok(quiz) => quiz@.wf() && quiz@.id == id,
            Err(e) => e is StorageFault && e.text() == unreadable_text(id),
        },
{
    admit_read(id, Quiz::from_bytes(bytes))
}

/// Reads the record stored under `id`. `Ok(None)` says that nothing is stored
/// there; a failure says that what is stored there could not be read as a record
/// of that identifier.
pub fn _get_quiz(store: &Store, id: &u64) -> (found: Result<Option<Quiz>, Error>)
    ensures
        found matches Ok(None) <==> !store.holds(*id),
        match found {
            Ok(Some(quiz)) => quiz@.wf() && quiz@.id == *id,
            Ok(None) => true,
            Err(e) => e is StorageFault && e.text() == unreadable_text(*id),
        },
{
    match fetch(&store.records, *id) {
        None => Ok(None),
        Some(bytes) => match read_stored(*id, &bytes) {
            Ok(quiz) => Ok(Some(quiz)),
            Err(e) => Err(e),
        },
    }
}

/// Stores `quiz` under its identifier, in place of whatever was stored there, and
/// returns the record that was there before, if there was one that could be read.
/// A record that breaks its invariant, or that has no stored form within the size
/// bound, is refused, and the store is then as before.
pub fn do_insert(store: &mut Store, quiz: &Quiz) -> (replaced: Result<Option<Quiz>, Error>)
    ensures
        match replaced {
            Ok(before) => {
                &&& quiz@.wf()
                &&& stored_form(quiz@) matches Some(form)
                &&& final(store).holds_now(old(store), old(store).bytes().insert(quiz@.id, form))
                &&& before matches Some(was) ==> old(store).holds(quiz@.id) && was@.wf() && was@.id
                    == quiz@.id
            },
            Err(e) => {
                &&& final(store).same_as(old(store))
                &&& if !quiz@.wf() {
                    e is InvalidInput && e.text() == invalid_input_text()
                } else {
                    &&& stored_form(quiz@) is None
                    &&& e is StorageFault
                    &&& e.text() == oversize_text(quiz@.id)
                }
            },
        },
{
    if !quiz.is_valid() {
        return Err(Error::invalid_input());
    }
    match quiz.to_bytes() {
        None => Err(Error::oversize(quiz.id)),
        Some(bytes) => {
            match put(&mut store.records, quiz.id, &bytes) {
                Some(before) => match read_stored(quiz.id, &before) {
                    Ok(was) => Ok(Some(was)),
                    Err(_) => Ok(None),
                },
                None => Ok(None),
            }
        },
    }
}

/// Returns the record stored under `id`.
pub fn get_quiz(store: &Store, id: u64) -> (found: Result<Quiz, Error>)
    ensures
        match found {
            Ok(quiz) => store.holds(id) && quiz@.wf() && quiz@.id == id,
            Err(e) => if !store.holds(id) {
                e is NotFound && e.text() == not_found_text(id)
            } else {
                e is StorageFault && e.text() == unreadable_text(id)
            },
        },
{
    match _get_quiz(store, &id) {
        Ok(Some(quiz)) => Ok(quiz),
        Ok(None) => Err(Error::not_found(id)),
        Err(e) => Err(e),
    }
}

/// Whether `listed` is a listing of the store: one well-formed record for every
/// identifier in use, in ascending order of the identifiers.
pub open spec fn lists(store: &Store, listed: Seq<Quiz>) -> bool {
    &&& forall|i: int|
        0 <= i < listed.len() ==> store.holds((#[trigger] listed[i])@.id) && listed[i]@.wf()
    &&& forall|i: int, j: int|
        0 <= i < j < listed.len() ==> (#[trigger] listed[i])@.id < (#[trigger] listed[j])@.id
    &&& forall|id: u64| #[trigger]
        store.holds(id) ==> exists|i: int| 0 <= i < listed.len() && (#[trigger] listed[i])@.id == id
}

/// Reads every record, in ascending order of the identifiers. The scan stops at
/// the first thing stored that cannot be read as a record of its identifier.
#[verifier::loop_isolation(false)]
pub fn scan_all(store: &Store) -> (scanned: Result<Vec<Quiz>, Error>)
    ensures
        match scanned {
            Ok(listed) => lists(store, listed@),
            Err(e) => e is StorageFault && exists|id: u64| #[trigger]
                store.holds(id) && e.text() == unreadable_text(id),
        },
{
    let all = entries(&store.records);
    let mut listed: Vec<Quiz> = Vec::new();
    let mut i: usize = 0;
    while i < all.len()
        invariant
            i <= all@.len(),
            listed@.len() == i,
            forall|k: int| 0 <= k < i ==> (#[trigger] listed@[k])@.id == all@[k].0 && listed@[k]@.wf(),
        decreases all@.len() - i,
    {
        let id = all[i].0;
        assert(store.holds(all@[i as int].0));
        match read_stored(id, &all[i].1) {
            Ok(quiz) => {
                listed.push(quiz);
            },
            Err(e) => {
                return Err(e);
            },
        }
        i += 1;
    }
    assert(lists(store, listed@)) by {
        assert forall|k: int| 0 <= k < listed@.len() implies store.holds((#[trigger] listed@[k])@.id) by {
            assert(store.holds(all@[k].0));
        }
        assert forall|a: int, b: int| 0 <= a < b < listed@.len() implies (#[trigger] listed@[a])@.id
            < (#[trigger] listed@[b])@.id by {
            assert(all@[a].0 < all@[b].0);
        }
        assert forall|id: u64| #[trigger] store.holds(id) implies exists|k: int|
            0 <= k < listed@.len() && (#[trigger] listed@[k])@.id == id by {
            let j = choose|j: int| 0 <= j < all@.len() && #[trigger] all@[j].0 == id;
            assert(listed@[j]@.id == id);
        }
    }
    Ok(listed)
}

/// Removes whatever is stored under `id`, and returns the record that was there,
/// if there was one that could be read.
pub fn remove(store: &mut Store, id: u64) -> (removed: Option<Quiz>)
    ensures
        final(store).holds_now(old(store), old(store).bytes().remove(id)),
        final(store).keeps_retired(old(store)),
        removed matches Some(was) ==> old(store).holds(id) && was@.wf() && was@.id == id,
{
    match take(&mut store.records, id) {
        Some(before) => match read_stored(id, &before) {
            Ok(was) => Some(was),
            Err(_) => None,
        },
        None => None,
    }
}

/// Lists every record, in ascending order of the identifiers. An empty store is
/// reported as a failure of its own, not as an empty list.
pub fn get_all_quiz(store: &Store) -> (listing: Result<Vec<Quiz>, Error>)
    ensures
        match listing {
            Ok(listed) => listed@.len() > 0 && lists(store, listed@),
            Err(e) => if store.ids() == Set::<u64>::empty() {
                e is NotFound && e.text() == no_records_text()
            } else {
                e is StorageFault && exists|id: u64| #[trigger]
                    store.holds(id) && e.text() == unreadable_text(id)
            },
        },
{
    match scan_all(store) {
        Ok(listed) => if listed.len() == 0 {
            assert(store.ids() =~= Set::<u64>::empty()) by {
                assert forall|id: u64| !store.ids().contains(id) by {
                    if store.holds(id) {
                        let i = choose|i: int|
                            0 <= i < listed@.len() && (#[trigger] listed@[i])@.id == id;
                    }
                }
            }
            Err(Error::no_records())
        } else {
            assert(store.holds(listed@[0]@.id));
            Ok(listed)
        },
        Err(e) => {
            let ghost id = choose|id: u64| #[trigger]
                store.holds(id) && e.text() == unreadable_text(id);
            assert(store.holds(id));
            Err(e)
        },
    }
}

/// Creates a quiz from `payload` for `author` at the time `now`: issues an
/// identifier, stores the new record with every counter at zero, and returns it.
/// A payload that cannot make a quiz is refused before anything is issued.
pub fn create_quiz(
    store: &mut Store,
    payload: QuizPayload,
    author: Option<String>,
    now: u64,
) -> (created: Result<Quiz, Error>)
    ensures
        final(store).layout() == old(store).layout(),
        final(store).keeps_retired(old(store)),
        match created {
            Ok(quiz) => {
                &&& payload.acceptable()
                &&& is_next_free(old(store).counter(), old(store).ids(), quiz@.id)
                &&& !old(store).issued().contains(quiz@.id)
                &&& final(store).issued() == old(store).issued().insert(quiz@.id)
                &&& quiz@ == QuizView::created(
                    quiz@.id,
                    text_of(author),
                    payload.question@,
                    texts(payload.options@),
                    now,
                )
                &&& stored_form(quiz@) matches Some(form)
                &&& final(store).bytes() == old(store).bytes().insert(quiz@.id, form)
                &&& final(store).counter() == quiz@.id
            },
            Err(e) => {
                &&& final(store).bytes() == old(store).bytes()
                &&& if !payload.acceptable() {
                    e is InvalidInput && e.text() == invalid_input_text() && final(store).same_as(
                        old(store),
                    )
                } else if e is AllocationFault {
                    e.text() == allocation_text() && final(store).same_as(old(store))
                } else {
                    &&& e is StorageFault
                    &&& is_next_free(old(store).counter(), old(store).ids(), final(store).counter())
                    &&& final(store).issued() == old(store).issued().insert(final(store).counter())
                    &&& e.text() == oversize_text(final(store).counter())
                    &&& stored_form(
                        QuizView::created(
                            final(store).counter(),
                            text_of(author),
                            payload.question@,
                            texts(payload.options@),
                            now,
                        ),
                    ) is None
                }
            },
        },
        !has_free_id(old(store).counter(), old(store).ids()) ==> created is Err,
{
    if !payload.is_valid() {
        return Err(Error::invalid_input());
    }
    let id = match next_id(store) {
        Ok(id) => id,
        Err(e) => {
            return Err(e);
        },
    };
    let quiz = Quiz::new(id, author, payload, now);
    match do_insert(store, &quiz) {
        Ok(_) => Ok(quiz),
        Err(e) => Err(e),
    }
}

/// Edits the record `current`, which was read from the store: replaces its
/// question and options, starts its tally again from zero, and stores it under
/// its identifier. Only the author may do so, where the record has one.
pub fn apply_edit(
    store: &mut Store,
    current: Quiz,
    payload: QuizPayload,
    caller: &String,
    now: u64,
) -> (updated: Result<Quiz, Error>)
    ensures
        match updated {
            Ok(quiz) => {
                &&& payload.acceptable()
                &&& current@.may_change(caller@)
                &&& quiz@ == current@.edited(payload.question@, texts(payload.options@), now)
                &&& stored_form(quiz@) matches Some(form)
                &&& final(store).holds_now(old(store), old(store).bytes().insert(current@.id, form))
            },
            Err(e) => {
                &&& final(store).same_as(old(store))
                &&& if !payload.acceptable() {
                    e is InvalidInput && e.text() == invalid_input_text()
                } else if !current@.may_change(caller@) {
                    e is NotAuthorized && e.text() == not_authorized_text(current@.id)
                } else {
                    &&& e is StorageFault
                    &&& e.text() == oversize_text(current@.id)
                    &&& stored_form(
                        current@.edited(payload.question@, texts(payload.options@), now),
                    ) is None
                }
            },
        },
{
    if !payload.is_valid() {
        return Err(Error::invalid_input());
    }
    if !current.may_change(caller) {
        return Err(Error::not_authorized(current.id));
    }
    let mut quiz = current;
    quiz.edit(payload, now);
    match do_insert(store, &quiz) {
        Ok(_) => Ok(quiz),
        Err(e) => Err(e),
    }
}

/// Casts one vote for `option` in the record `current`, which was read from the
/// store, and stores it under its identifier. A label that is empty or is no
/// option of the quiz is refused.
pub fn apply_vote(
    store: &mut Store,
    current: Quiz,
    option: &String,
    now: u64,
) -> (answered: Result<Quiz, Error>)
    ensures
        match answered {
            Ok(quiz) => {
                &&& current@.wf()
                &&& current@.accepts(option@)
                &&& current@.count_of(option@) < u32::MAX
                &&& quiz@ == current@.voted(option@, now)
                &&& stored_form(quiz@) matches Some(form)
                &&& final(store).holds_now(old(store), old(store).bytes().insert(current@.id, form))
            },
            Err(e) => {
                &&& final(store).same_as(old(store))
                &&& if !current@.wf() {
                    e is InvalidInput && e.text() == invalid_input_text()
                } else if !current@.accepts(option@) {
                    e is InvalidChoice && e.text() == invalid_choice_text(option@)
                } else if current@.count_of(option@) == u32::MAX {
                    e is StorageFault && e.text() == full_tally_text(option@)
                } else {
                    &&& e is StorageFault
                    &&& e.text() == oversize_text(current@.id)
                    &&& stored_form(current@.voted(option@, now)) is None
                }
            },
        },
{
    if !current.is_valid() {
        return Err(Error::invalid_input());
    }
    let mut quiz = current;
    match quiz.vote(option, now) {
        Ok(_) => {},
        Err(e) => {
            return Err(e);
        },
    }
    match do_insert(store, &quiz) {
        Ok(_) => Ok(quiz),
        Err(e) => Err(e),
    }
}

/// Deletes the record `current`, which was read from the store: removes what is
/// stored under its identifier, and hands the record back. Only the author may
/// do so, where the record has one.
pub fn apply_delete(store: &mut Store, current: Quiz, caller: &String) -> (deleted: Result<Quiz, Error>)
    ensures
        match deleted {
            Ok(quiz) => {
                &&& quiz == current
                &&& current@.may_change(caller@)
                &&& final(store).holds_now(old(store), old(store).bytes().remove(current@.id))
            },
            Err(e) => {
                &&& final(store).same_as(old(store))
                &&& !current@.may_change(caller@)
                &&& e is NotAuthorized
                &&& e.text() == not_authorized_text(current@.id)
            },
        },
{
    if !current.may_change(caller) {
        return Err(Error::not_authorized(current.id));
    }
    let _ = remove(store, current.id);
    Ok(current)
}

/// Replaces the question and the options of the quiz under `id` and starts its
/// tally again from zero. Only the author may do so, where the record has one.
/// What the edit makes of the record that is read is stated by `apply_edit`.
pub fn update_quiz(
    store: &mut Store,
    id: u64,
    payload: QuizPayload,
    caller: &String,
    now: u64,
) -> (updated: Result<Quiz, Error>)
    ensures
        final(store).keeps_retired(old(store)),
        match updated {
            Ok(quiz) => {
                &&& payload.acceptable()
                &&& old(store).holds(id)
                &&& quiz@.id == id
                &&& quiz@.wf()
                &&& quiz@.may_change(caller@)
                &&& quiz@.is_edit(payload.question@, texts(payload.options@), now)
                &&& stored_form(quiz@) matches Some(form)
                &&& final(store).holds_now(old(store), old(store).bytes().insert(id, form))
            },
            Err(e) => {
                &&& final(store).same_as(old(store))
                &&& if !payload.acceptable() {
                    e is InvalidInput && e.text() == invalid_input_text()
                } else if !old(store).holds(id) {
                    e is NotFound && e.text() == update_not_found_text(id)
                } else {
                    ||| e is StorageFault && e.text() == unreadable_text(id)
                    ||| e is NotAuthorized && e.text() == not_authorized_text(id)
                    ||| e is StorageFault && e.text() == oversize_text(id)
                }
            },
        },
{
    if !payload.is_valid() {
        return Err(Error::invalid_input());
    }
    match _get_quiz(store, &id) {
        Ok(Some(current)) => apply_edit(store, current, payload, caller, now),
        Ok(None) => Err(Error::update_not_found(id)),
        Err(e) => Err(e),
    }
}

/// Removes the quiz under `id` for good and returns it. Only the author may do
/// so, where the record has one.
pub fn delete_quiz(store: &mut Store, id: u64, caller: &String) -> (deleted: Result<Quiz, Error>)
    ensures
        final(store).keeps_retired(old(store)),
        match deleted {
            Ok(quiz) => {
                &&& old(store).holds(id)
                &&& quiz@.id == id
                &&& quiz@.wf()
                &&& quiz@.may_change(caller@)
                &&& final(store).holds_now(old(store), old(store).bytes().remove(id))
                &&& old(store).issued().contains(id) ==> final(store).retired(id)
            },
            Err(e) => {
                &&& final(store).same_as(old(store))
                &&& if !old(store).holds(id) {
                    e is NotFound && e.text() == delete_not_found_text(id)
                } else {
                    ||| e is StorageFault && e.text() == unreadable_text(id)
                    ||| e is NotAuthorized && e.text() == not_authorized_text(id)
                }
            },
        },
{
    match _get_quiz(store, &id) {
        Ok(Some(current)) => apply_delete(store, current, caller),
        Ok(None) => Err(Error::delete_not_found(id)),
        Err(e) => Err(e),
    }
}

/// Casts one vote for `option` in the quiz under `id`, and returns the record
/// with the new tally. A label that is empty or is no option of the quiz is
/// refused, and so is every other vote that fails; the store is then as before.
/// What the vote makes of the record that is read is stated by `apply_vote`.
pub fn answer_quiz(
    store: &mut Store,
    id: u64,
    option: String,
    now: u64,
) -> (answered: Result<Quiz, Error>)
    ensures
        final(store).keeps_retired(old(store)),
        match answered {
            Ok(quiz) => {
                &&& old(store).holds(id)
                &&& quiz@.id == id
                &&& quiz@.wf()
                &&& quiz@.is_vote(option@, now)
                &&& stored_form(quiz@) matches Some(form)
                &&& final(store).holds_now(old(store), old(store).bytes().insert(id, form))
            },
            Err(e) => {
                &&& final(store).same_as(old(store))
                &&& if !old(store).holds(id) {
                    e is NotFound && e.text() == vote_not_found_text(id)
                } else {
                    ||| e is StorageFault && e.text() == unreadable_text(id)
                    ||| e is InvalidChoice && e.text() == invalid_choice_text(option@)
                    ||| e is StorageFault && e.text() == full_tally_text(option@)
                    ||| e is StorageFault && e.text() == oversize_text(id)
                }
            },
        },
{
    match _get_quiz(store, &id) {
        Ok(Some(current)) => {
            proof {
                if current@.accepts(option@) && current@.count_of(option@) < u32::MAX {
                    crate::record::lemma_vote_counts_once(current@, option@, now);
                    let at = current@.options.index_of(option@);
                    assert(0 <= at < current@.options.len());
                }
            }
            apply_vote(store, current, &option, now)
        },
        Ok(None) => Err(Error::vote_not_found(id)),
        Err(e) => Err(e),
    }
}

/// Identifiers issued one after another are all different, each above those
/// issued before it: the counter holds the last one issued and never goes back.
/// `counters[i]` is the counter and `used[i]` the identifiers in use when
/// `issued[i]` is issued.
pub proof fn lemma_issued_ids_differ(counters: Seq<u64>, used: Seq<Set<u64>>, issued: Seq<u64>)
    requires
        counters.len() == issued.len(),
        used.len() == issued.len(),
        forall|i: int| 0 <= i < issued.len() ==> is_next_free(counters[i], used[i], #[trigger] issued[i]),
        forall|i: int, j: int|
            0 <= i < j < issued.len() && j == i + 1 ==> #[trigger] issued[i] <= #[trigger] counters[j],
    ensures
        forall|i: int, j: int| 0 <= i < j < issued.len() ==> #[trigger] issued[i] < #[trigger] issued[j],
    decreases issued.len(),
{
    if issued.len() > 1 {
        let n = issued.len() - 1;
        lemma_issued_ids_differ(counters.take(n), used.take(n), issued.take(n));
        assert forall|i: int, j: int| 0 <= i < j < issued.len() implies #[trigger] issued[i]
            < #[trigger] issued[j] by {
            if j < n {
                assert(issued.take(n)[i] < issued.take(n)[j]);
            } else {
                assert(issued[n - 1] <= counters[n]);
                assert(is_next_free(counters[n], used[n], issued[n]));
                if i < n - 1 {
                    assert(issued.take(n)[i] < issued.take(n)[n - 1]);
                }
            }
        }
    }
}

/// Once a record is deleted nothing is stored under its identifier, so a lookup
/// finds nothing there; what is stored under every other identifier is as before.
pub proof fn lemma_deleted_is_absent(before: Store, after: Store, id: u64)
    requires
        after.bytes() == before.bytes().remove(id),
    ensures
        !after.holds(id),
        forall|other: u64|
            other != id ==> after.holds(other) == before.holds(other) && (before.holds(other)
                ==> after.bytes()[other] == before.bytes()[other]),
{
}

/// An identifier that the counter has reached is not issued again, deleted or
/// not: whatever is issued later lies above the counter of that later time.
pub proof fn lemma_deleted_id_not_reissued(gone: u64, then: Store, later: Store, issued: u64)
    requires
        gone <= then.counter(),
        then.counter() <= later.counter(),
        is_next_free(later.counter(), later.ids(), issued),
    ensures
        issued != gone,
{
}

} // verus!
