//! The registry of live sessions and the index of their deadlines.
//!
//! The store maps a session's id to a handle on its state, and keeps for
//! every session an entry in an index that is ordered by deadline and, among
//! equal deadlines, by the order of creation. A reaper asks the store in turn
//! what to do next: the store drops what is overdue and says how long the
//! reaper may sleep.
//!
//! Time is a count of nanoseconds on a clock that never runs backwards.

use crate::token::same_text;
use vstd::prelude::*;

verus! {

/// How long a session lives after its creation, in nanoseconds.
pub const SESSION_TTL: u64 = 900_000_000_000;

/// One entry of the deadline index.
pub struct Deadline {
    pub deadline: u64,
    pub sequence: u64,
    pub id: Seq<char>,
}

/// Whether `a` stands before `b` in the index: by deadline first, then by
/// the order of creation.
pub open spec fn comes_before(a: Deadline, b: Deadline) -> bool {
    a.deadline < b.deadline || (a.deadline == b.deadline && a.sequence < b.sequence)
}

/// Whether every entry stands before all that follow it.
pub open spec fn ordered(index: Seq<Deadline>) -> bool {
    forall|i: int, j: int| 0 <= i < j < index.len() ==> comes_before(index[i], index[j])
}

/// The number of entries at the head of the index whose deadline has passed
/// at `now`.
pub open spec fn overdue_count(index: Seq<Deadline>, now: u64) -> nat
    decreases index.len(),
{
    if index.len() == 0 || index[0].deadline > now {
        0
    } else {
        1 + overdue_count(index.drop_first(), now)
    }
}

/// The ids that the first `count` entries of the index name.
pub open spec fn ids_of_first(index: Seq<Deadline>, count: int) -> Set<Seq<char>> {
    Set::new(|id: Seq<char>| exists|i: int| 0 <= i < count && i < index.len() && (#[trigger] index[i]).id == id)
}

/// What the reaper does next.
#[derive(Clone, Copy, Debug, PartialEq, Eq, Structural)]
pub enum ReaperAction {
    /// The store is closing: end the loop.
    Stop,
    /// Sleep until this time or until a session is created, whichever comes
    /// first.
    SleepUntil(u64),
    /// No session is left: sleep until one is created.
    AwaitSignal,
}

struct Expiration {
    deadline: u64,
    sequence: u64,
    id: String,
}

struct Entry<H> {
    id: String,
    handle: H,
}

/// The registry of sessions, each held by a handle of type `H`.
pub struct Store<H> {
    files: Vec<Entry<H>>,
    expirations: Vec<Expiration>,
    next_id: u64,
    shutdown: bool,
}

spec fn entry_of(e: Expiration) -> Deadline {
    Deadline { deadline: e.deadline, sequence: e.sequence, id: e.id@ }
}

spec fn index_of(expirations: Seq<Expiration>) -> Seq<Deadline> {
    Seq::new(expirations.len(), |i: int| entry_of(expirations[i]))
}

spec fn has_id<H>(files: Seq<Entry<H>>, id: Seq<char>) -> bool {
    exists|i: int| 0 <= i < files.len() && (#[trigger] files[i]).id@ == id
}

spec fn place_of<H>(files: Seq<Entry<H>>, id: Seq<char>) -> int {
    choose|i: int| 0 <= i < files.len() && (#[trigger] files[i]).id@ == id
}

spec fn as_map<H>(files: Seq<Entry<H>>) -> Map<Seq<char>, H> {
    Map::new(|id: Seq<char>| has_id(files, id), |id: Seq<char>| files[place_of(files, id)].handle)
}

spec fn distinct_ids<H>(files: Seq<Entry<H>>) -> bool {
    forall|i: int, j: int|
        0 <= i < j < files.len() ==> (#[trigger] files[i]).id@ != (#[trigger] files[j]).id@
}

proof fn lemma_as_map_at<H>(files: Seq<Entry<H>>, i: int)
    requires
        distinct_ids(files),
        0 <= i < files.len(),
    ensures
        as_map(files).contains_key(files[i].id@),
        as_map(files)[files[i].id@] == files[i].handle,
{
}

/// The place of the entry for `id`, if there is one.
fn position<H>(files: &Vec<Entry<H>>, id: &str) -> (found: Option<usize>)
    ensures
        match found {
            Some(i) => i < files@.len() && files@[i as int].id@ == id@,
            None => !has_id(files@, id@),
        },
{
    let mut i: usize = 0;
    while i < files.len()
        invariant
            i <= files.len(),
            forall|j: int| 0 <= j < i ==> (#[trigger] files@[j]).id@ != id@,
        decreases files.len() - i,
    {
        if same_text(files[i].id.as_str(), id) {
            return Some(i);
        }
        i += 1;
    }
    None
}

/// Drops the entry for `id`, if there is one.
fn forget<H>(files: &mut Vec<Entry<H>>, id: &str)
    requires
        distinct_ids(old(files)@),
    ensures
        distinct_ids(final(files)@),
        as_map(final(files)@) == as_map(old(files)@).remove(id@),
{
    let ghost before = files@;
    match position(files, id) {
        None => {
        },
        Some(i) => {
            files.swap_remove(i);
            proof {
                let after = files@;
                let last = before.len() - 1;
                assert forall|a: int, b: int| 0 <= a < b < after.len() implies (
                #[trigger] after[a]).id@ != (#[trigger] after[b]).id@ by {
                }
                assert forall|key: Seq<char>| #[trigger]
                    as_map(after).contains_key(key) == as_map(before).remove(id@).contains_key(
                        key,
                    ) by {
                    if has_id(before, key) && key != id@ {
                        let x = place_of(before, key);
                        let a = if x == last { i as int } else { x };
                        assert(after[a] == before[x]);
                    }
                }
                assert forall|key: Seq<char>| #[trigger]
                    as_map(after).contains_key(key) implies as_map(after)[key] == as_map(
                    before,
                ).remove(id@)[key] by {
                    let a = place_of(after, key);
                    lemma_as_map_at(after, a);
                    lemma_as_map_at(before, if a == i { last } else { a });
                }
            }
        },
    }
}

/// The head of the index that is overdue ends at `count` if every entry
/// before it is overdue and the entry at it, if there is one, is not.
pub proof fn lemma_overdue_count(index: Seq<Deadline>, now: u64, count: int)
    requires
        0 <= count <= index.len(),
        forall|i: int| 0 <= i < count ==> (#[trigger] index[i]).deadline <= now,
        count == index.len() || index[count].deadline > now,
    ensures
        overdue_count(index, now) == count,
    decreases count,
{
    if count > 0 {
        lemma_overdue_count(index.drop_first(), now, count - 1);
    }
}

/// In an ordered index the overdue head holds every overdue entry: what
/// follows it is due later than `now`.
pub proof fn lemma_overdue_head(index: Seq<Deadline>, now: u64)
    requires
        ordered(index),
    ensures
        overdue_count(index, now) <= index.len(),
        forall|i: int|
            0 <= i < index.len() ==> ((#[trigger] index[i]).deadline <= now <==> i < overdue_count(
                index,
                now,
            )),
    decreases index.len(),
{
    if index.len() > 0 {
        let rest = index.drop_first();
        lemma_overdue_head(rest, now);
        assert forall|i: int| 0 <= i < index.len() implies ((#[trigger] index[i]).deadline <= now
            <==> i < overdue_count(index, now)) by {
            if i > 0 {
                assert(index[i] == rest[i - 1]);
                assert(comes_before(index[0], index[i]));
            }
        }
    }
}

impl<H> Store<H> {
    /// The live sessions: each id with the handle on its state.
    pub closed spec fn sessions(&self) -> Map<Seq<char>, H> {
        as_map(self.files@)
    }

    /// The deadline index, earliest entry first.
    pub closed spec fn index(&self) -> Seq<Deadline> {
        index_of(self.expirations@)
    }

    /// The number that the next session's entry in the index will carry.
    pub closed spec fn next_sequence(&self) -> u64 {
        self.next_id
    }

    /// Whether the store has been told to close.
    pub closed spec fn closing(&self) -> bool {
        self.shutdown
    }

    /// Whether no id is held twice.
    pub closed spec fn distinct(&self) -> bool {
        distinct_ids(self.files@)
    }

    /// What holds of every store: the index is in order, every entry was
    /// numbered before the next number to give out, and every live session
    /// has an entry in the index.
    pub open spec fn wf(&self) -> bool {
        &&& self.distinct()
        &&& ordered(self.index())
        &&& forall|k: int|
            0 <= k < self.index().len() ==> (#[trigger] self.index()[k]).sequence
                < self.next_sequence()
        &&& forall|id: Seq<char>| #[trigger]
            self.sessions().contains_key(id) ==> exists|k: int|
                0 <= k < self.index().len() && (#[trigger] self.index()[k]).id == id
    }

    /// An empty store.
    pub fn new() -> (store: Self)
        ensures
            store.wf(),
            store.sessions() == Map::<Seq<char>, H>::empty(),
            store.index() == Seq::<Deadline>::empty(),
            store.next_sequence() == 0,
            !store.closing(),
    {
        let store = Store { files: Vec::new(), expirations: Vec::new(), next_id: 0, shutdown: false };
        store
    }

    /// Whether another session can be created at `now`: the deadline and the
    /// next number must fit.
    pub open spec fn can_create(&self, now: u64) -> bool {
        self.next_sequence() < u64::MAX && now + SESSION_TTL <= u64::MAX
    }

    /// Tells whether another session can be created at `now`.
    pub fn has_room(&self, now: u64) -> (room: bool)
        ensures
            room == self.can_create(now),
    {
        self.next_id < u64::MAX && now <= u64::MAX - SESSION_TTL
    }

    /// Registers a session under `id`, to live until `SESSION_TTL` after
    /// `now`. A session that was held under the same id is replaced.
    pub fn create(&mut self, id: String, handle: H, now: u64)
        requires
            old(self).wf(),
            old(self).can_create(now),
        ensures
            final(self).wf(),
            final(self).created_from(old(self), id@, handle, now),
    {
        let deadline: u64 = now + SESSION_TTL;
        let sequence: u64 = self.next_id;
        let ghost files_before = self.files@;
        let ghost index_before = self.index();
        let ghost fresh = Deadline { deadline, sequence, id: id@ };
        self.next_id = sequence + 1;
        let kept = id.clone();
        match position(&self.files, id.as_str()) {
            Some(i) => {
                self.files.set(i, Entry { id: kept, handle });
            },
            None => {
                self.files.push(Entry { id: kept, handle });
            },
        }
        proof {
            let files_after = self.files@;
            assert forall|key: Seq<char>| #[trigger]
                as_map(files_after).contains_key(key) == as_map(files_before).insert(
                    id@,
                    handle,
                ).contains_key(key) by {
                if has_id(files_before, key) {
                    let a = place_of(files_before, key);
                    assert(files_after[a].id@ == key);
                }
                if key == id@ && !has_id(files_before, id@) {
                    assert(files_after[files_after.len() - 1].id@ == id@);
                }
            }
            assert forall|key: Seq<char>| #[trigger]
                as_map(files_after).contains_key(key) implies as_map(files_after)[key] == as_map(
                files_before,
            ).insert(id@, handle)[key] by {
                let a = place_of(files_after, key);
                lemma_as_map_at(files_after, a);
                if key != id@ {
                    lemma_as_map_at(files_before, a);
                }
            }
            assert(as_map(files_after) =~= as_map(files_before).insert(id@, handle));
        }
        let mut at: usize = self.expirations.len();
        while at > 0 && (self.expirations[at - 1].deadline > deadline || (self.expirations[at
            - 1].deadline == deadline && self.expirations[at - 1].sequence > sequence))
            invariant
                at <= self.expirations.len(),
                self.index() == index_before,
                fresh == (Deadline { deadline, sequence, id: id@ }),
                forall|j: int|
                    at <= j < index_before.len() ==> comes_before(fresh, #[trigger] index_before[j]),
            decreases at,
        {
            at -= 1;
        }
        self.expirations.insert(at, Expiration { deadline, sequence, id });
        proof {
            let index_after = self.index();
            assert(index_after =~= index_before.insert(at as int, fresh));
            assert forall|i: int, j: int| 0 <= i < j < index_after.len() implies comes_before(
                index_after[i],
                index_after[j],
            ) by {
                if j == at {
                    assert(comes_before(index_before[i], index_before[at - 1]) || i == at - 1);
                }
            }
            assert forall|key: Seq<char>| #[trigger]
                self.sessions().contains_key(key) implies exists|k: int|
                0 <= k < index_after.len() && (#[trigger] index_after[k]).id == key by {
                if key == id@ {
                    assert(index_after[at as int].id == key);
                } else {
                    assert(old(self).sessions().contains_key(key));
                    let x = choose|k: int|
                        0 <= k < index_before.len() && (#[trigger] index_before[k]).id == key;
                    let k = if x < at { x } else { x + 1 };
                    assert(index_after[k] == index_before[x]);
                }
            }
        }
    }

    /// A handle on the session held under `id`, if there is one.
    pub fn get(&self, id: &str) -> (handle: Option<&H>)
        requires
            self.wf(),
        ensures
            match handle {
                Some(h) => self.sessions().contains_key(id@) && *h == self.sessions()[id@],
                None => !self.sessions().contains_key(id@),
            },
    {
        match position(&self.files, id) {
            Some(i) => {
                proof {
                    lemma_as_map_at(self.files@, i as int);
                }
                Some(&self.files[i].handle)
            },
            None => None,
        }
    }

    /// Whether this store is `before` with a session registered under `id`
    /// at `now`.
    pub open spec fn created_from(&self, before: &Store<H>, id: Seq<char>, handle: H, now: u64)
        -> bool {
        &&& self.sessions() == before.sessions().insert(id, handle)
        &&& exists|at: int|
            0 <= at <= before.index().len() && self.index() == #[trigger] before.index().insert(
                at,
                (Deadline {
                    deadline: (now + SESSION_TTL) as u64,
                    sequence: before.next_sequence(),
                    id,
                }),
            )
        &&& self.next_sequence() == before.next_sequence() + 1
        &&& self.closing() == before.closing()
    }

    /// Whether this store is `before` without the entries that are overdue
    /// at `now` and without the sessions that they name.
    pub open spec fn purged_from(&self, before: &Store<H>, now: u64) -> bool {
        &&& self.index() == before.index().skip(overdue_count(before.index(), now) as int)
        &&& self.sessions() == before.sessions().remove_keys(
            ids_of_first(before.index(), overdue_count(before.index(), now) as int),
        )
        &&& self.next_sequence() == before.next_sequence()
        &&& self.closing() == before.closing()
    }

    /// Whether this store holds what `before` holds.
    pub open spec fn same_as(&self, before: &Store<H>) -> bool {
        &&& self.index() == before.index()
        &&& self.sessions() == before.sessions()
        &&& self.next_sequence() == before.next_sequence()
        &&& self.closing() == before.closing()
    }

    /// The earliest deadline in the index, if it holds any.
    pub open spec fn earliest(&self) -> Option<u64> {
        if self.index().len() == 0 {
            None
        } else {
            Some(self.index()[0].deadline)
        }
    }

    /// Drops every session whose deadline has passed at `now` and returns
    /// the earliest deadline that is left. A closing store drops nothing and
    /// returns nothing.
    pub fn purge_expired(&mut self, now: u64) -> (next: Option<u64>)
        requires
            old(self).wf(),
        ensures
            final(self).wf(),
            old(self).closing() ==> next is None && final(self).same_as(old(self)),
            !old(self).closing() ==> next == final(self).earliest() && final(self).purged_from(
                old(self),
                now,
            ),
            forall|k: int|
                !old(self).closing() && 0 <= k < final(self).index().len() ==> (
                #[trigger] final(self).index()[k]).deadline > now,
    {
        if self.shutdown {
            return None;
        }
        let ghost files_before = self.files@;
        let ghost index_before = self.index();
        let mut count: usize = 0;
        proof {
            assert(as_map(files_before).remove_keys(Set::<Seq<char>>::empty()) =~= as_map(
                files_before,
            ));
        }
        while count < self.expirations.len() && self.expirations[count].deadline <= now
            invariant
                count <= self.expirations.len(),
                self.expirations == old(self).expirations,
                self.next_id == old(self).next_id,
                self.shutdown == old(self).shutdown,
                index_before == old(self).index(),
                files_before == old(self).files@,
                distinct_ids(self.files@),
                as_map(self.files@) == as_map(files_before).remove_keys(
                    ids_of_first(index_before, count as int),
                ),
                forall|i: int| 0 <= i < count ==> (#[trigger] index_before[i]).deadline <= now,
            decreases self.expirations.len() - count,
        {
            let ghost held = as_map(self.files@);
            forget(&mut self.files, self.expirations[count].id.as_str());
            proof {
                let gone = index_before[count as int].id;
                assert(ids_of_first(index_before, count + 1) =~= ids_of_first(
                    index_before,
                    count as int,
                ).insert(gone));
                assert(held.remove(gone) =~= as_map(files_before).remove_keys(
                    ids_of_first(index_before, count + 1),
                ));
            }
            count += 1;
        }
        let rest = self.expirations.split_off(count);
        self.expirations = rest;
        proof {
            lemma_overdue_count(index_before, now, count as int);
            lemma_overdue_head(index_before, now);
            let index_after = self.index();
            assert(index_after =~= index_before.skip(count as int));
            assert forall|key: Seq<char>| #[trigger]
                self.sessions().contains_key(key) implies exists|k: int|
                0 <= k < index_after.len() && (#[trigger] index_after[k]).id == key by {
                assert(old(self).sessions().contains_key(key));
                let x = choose|k: int|
                    0 <= k < index_before.len() && (#[trigger] index_before[k]).id == key;
                assert(index_after[x - count] == index_before[x]);
            }
        }
        if self.expirations.len() == 0 {
            None
        } else {
            Some(self.expirations[0].deadline)
        }
    }

    /// One step of the reaper at `now`: a closing store is left as it is and
    /// the reaper stops; otherwise what is overdue is dropped, and the reaper
    /// sleeps until the earliest deadline that is left, or, where none is
    /// left, until a session is created.
    pub fn reaper_step(&mut self, now: u64) -> (action: ReaperAction)
        requires
            old(self).wf(),
        ensures
            final(self).wf(),
            old(self).closing() ==> action == ReaperAction::Stop && final(self).same_as(old(self)),
            !old(self).closing() ==> final(self).purged_from(old(self), now) && action == (
            match final(self).earliest() {
                Some(when) => ReaperAction::SleepUntil(when),
                None => ReaperAction::AwaitSignal,
            }),
            forall|k: int|
                !old(self).closing() && 0 <= k < final(self).index().len() ==> (
                #[trigger] final(self).index()[k]).deadline > now,
    {
        if self.shutdown {
            ReaperAction::Stop
        } else {
            match self.purge_expired(now) {
                Some(when) => ReaperAction::SleepUntil(when),
                None => ReaperAction::AwaitSignal,
            }
        }
    }

    /// Tells the store to close: the reaper stops at its next step.
    pub fn shutdown(&mut self)
        ensures
            final(self).closing(),
            final(self).sessions() == old(self).sessions(),
            final(self).index() == old(self).index(),
            final(self).next_sequence() == old(self).next_sequence(),
            old(self).wf() ==> final(self).wf(),
    {
        self.shutdown = true;
    }

    /// Whether the store has been told to close.
    pub fn is_shutdown(&self) -> (closing: bool)
        ensures
            closing == self.closing(),
    {
        self.shutdown
    }
}

/// A purge drops every session that an overdue entry of the index names:
/// after it the store no longer holds that session.
pub proof fn lemma_overdue_session_is_purged<H>(
    before: Store<H>,
    after: Store<H>,
    now: u64,
    entry: int,
)
    requires
        before.wf(),
        after.purged_from(&before, now),
        0 <= entry < before.index().len(),
        before.index()[entry].deadline <= now,
    ensures
        !after.sessions().contains_key(before.index()[entry].id),
{
    lemma_overdue_head(before.index(), now);
    assert(ids_of_first(before.index(), overdue_count(before.index(), now) as int).contains(
        before.index()[entry].id,
    ));
}

/// A session is gone once its deadline has passed and the store was purged,
/// whether or not another session was created in between: created at
/// `created` and purged at any time from `created + SESSION_TTL` on, it is
/// no longer found.
pub proof fn lemma_created_session_expires<H>(
    before: Store<H>,
    held: Store<H>,
    after: Store<H>,
    id: Seq<char>,
    handle: H,
    created: u64,
    now: u64,
)
    requires
        before.wf(),
        before.can_create(created),
        held.wf(),
        held.created_from(&before, id, handle, created),
        after.purged_from(&held, now),
        now >= created + SESSION_TTL,
    ensures
        held.sessions().contains_key(id),
        !after.sessions().contains_key(id),
{
    let fresh = Deadline {
        deadline: (created + SESSION_TTL) as u64,
        sequence: before.next_sequence(),
        id,
    };
    let at = choose|at: int|
        0 <= at <= before.index().len() && held.index() == #[trigger] before.index().insert(
            at,
            fresh,
        );
    lemma_overdue_session_is_purged(held, after, now, at);
}

/// After a purge at `now` every entry that is left is due later than `now`,
/// and none is due before the earliest deadline, the time that the reaper
/// is told to sleep until: the reaper wakes by itself when the next session
/// is due, and no session is due before it wakes.
pub proof fn lemma_reaper_wakes_in_time<H>(before: Store<H>, after: Store<H>, now: u64, entry: int)
    requires
        before.wf(),
        after.purged_from(&before, now),
        0 <= entry < after.index().len(),
    ensures
        after.earliest() is Some,
        now < after.earliest()->0 <= after.index()[entry].deadline,
{
    let index = before.index();
    let count = overdue_count(index, now) as int;
    lemma_overdue_head(index, now);
    if entry > 0 {
        assert(comes_before(index[count], index[count + entry]));
    }
}

/// Whether no two entries of the index name the same session.
pub open spec fn one_entry_each(index: Seq<Deadline>) -> bool {
    forall|i: int, j: int|
        0 <= i < j < index.len() ==> (#[trigger] index[i]).id != (#[trigger] index[j]).id
}

/// Where every session is created under an id that the index does not
/// name, no two entries of the index ever name the same session: a creation
/// under a new id keeps this, and so does a purge.
pub proof fn lemma_one_entry_each_is_kept<H>(
    before: Store<H>,
    after: Store<H>,
    id: Seq<char>,
    handle: H,
    now: u64,
)
    requires
        before.wf(),
        one_entry_each(before.index()),
        after.purged_from(&before, now) || (before.can_create(now) && after.created_from(
            &before,
            id,
            handle,
            now,
        ) && forall|k: int|
            0 <= k < before.index().len() ==> (#[trigger] before.index()[k]).id != id),
    ensures
        one_entry_each(after.index()),
{
    if after.purged_from(&before, now) {
        lemma_overdue_head(before.index(), now);
    }
}

/// No session is purged before its deadline: where no two entries name the
/// same session, a session whose entry is due later than `now` is still
/// held, by the same handle, after a purge at `now`.
pub proof fn lemma_session_outlives_early_purge<H>(
    before: Store<H>,
    after: Store<H>,
    now: u64,
    entry: int,
)
    requires
        before.wf(),
        one_entry_each(before.index()),
        after.purged_from(&before, now),
        0 <= entry < before.index().len(),
        before.index()[entry].deadline > now,
        before.sessions().contains_key(before.index()[entry].id),
    ensures
        after.sessions().contains_key(before.index()[entry].id),
        after.sessions()[before.index()[entry].id] == before.sessions()[before.index()[entry].id],
{
    let index = before.index();
    let count = overdue_count(index, now) as int;
    lemma_overdue_head(index, now);
}

} // verus!
