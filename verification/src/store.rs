//! The two kinds of storage a deployed instance has: one slot for its
//! aggregate record, and keyed stores of lifecycle records that are read back
//! one at a time or page by page in ascending order of their identifiers.

use vstd::prelude::*;
use crate::error::ContractError;
use crate::keys::{compare_keys, key_lt, lemma_key_lt_asymmetric, lemma_key_lt_irreflexive, lemma_key_lt_transitive, KeyOrder};

verus! {

/// The most records that one page holds, whatever the caller asks for.
pub const MAX_LIMIT: u32 = 30;

/// The number of records in a page when the caller names none.
pub const DEFAULT_LIMIT: u32 = 30;

/// The single slot that holds an instance's aggregate record.
#[derive(Clone, Debug, PartialEq, Eq)]
pub struct Item<T> {
    value: Option<T>,
}

impl<T> Item<T> {
    /// What the slot holds.
    pub closed spec fn view(&self) -> Option<T> {
        self.value
    }

    /// An empty slot.
    pub fn new() -> (r: Self)
        ensures
            r@ is None,
    {
        Item { value: None }
    }

    /// The stored value; `NotInitialized` while the slot is empty.
    pub fn load(&self) -> (r: Result<&T, ContractError>)
        ensures
            r == match self@ {
                Some(value) => Ok::<&T, ContractError>(&value),
                None => Err::<&T, ContractError>(ContractError::NotInitialized),
            },
    {
        match &self.value {
            Some(value) => Ok(value),
            None => Err(ContractError::NotInitialized),
        }
    }

    /// Stores `value`, replacing what the slot held.
    pub fn save(&mut self, value: T)
        ensures
            final(self)@ == Some(value),
    {
        self.value = Some(value);
    }

    /// Whether a value has been stored.
    pub fn is_set(&self) -> (r: bool)
        ensures
            r == self@ is Some,
    {
        self.value.is_some()
    }
}

/// The identifiers of `entries` ascend strictly, so none occurs twice.
pub open spec fn ascending<T>(entries: Seq<(Seq<char>, T)>) -> bool {
    forall|i: int, j: int| 0 <= i < j < entries.len() ==> key_lt(#[trigger] entries[i].0, #[trigger] entries[j].0)
}

/// Some entry of `entries` has the identifier `id`.
pub open spec fn has_key<T>(entries: Seq<(Seq<char>, T)>, id: Seq<char>) -> bool {
    exists|i: int| 0 <= i < entries.len() && #[trigger] entries[i].0 == id
}

/// The place of an entry with the identifier `id`.
pub open spec fn index_of<T>(entries: Seq<(Seq<char>, T)>, id: Seq<char>) -> int {
    choose|i: int| 0 <= i < entries.len() && #[trigger] entries[i].0 == id
}

/// The records of `entries` by their identifiers.
pub open spec fn to_map<T>(entries: Seq<(Seq<char>, T)>) -> Map<Seq<char>, T> {
    Map::new(|id: Seq<char>| has_key(entries, id), |id: Seq<char>| entries[index_of(entries, id)].1)
}

/// What a lookup of `id` gives in a store that holds `records`: the record,
/// or `NotFound`.
pub open spec fn loaded<T>(records: Map<Seq<char>, T>, id: Seq<char>) -> Result<T, ContractError> {
    if records.dom().contains(id) {
        Ok(records[id])
    } else {
        Err(ContractError::NotFound)
    }
}

/// What a store that holds `records` holds once `record` is saved under `id`.
pub open spec fn saved<T>(records: Map<Seq<char>, T>, id: Seq<char>, record: T) -> Map<Seq<char>, T> {
    records.insert(id, record)
}

/// The number of leading entries that a page resuming after `cursor` skips:
/// all of those whose identifier is not after the cursor.
pub open spec fn start_after<T>(entries: Seq<(Seq<char>, T)>, cursor: Option<Seq<char>>) -> int
    decreases entries.len(),
{
    match cursor {
        None => 0,
        Some(id) => if entries.len() == 0 {
            0
        } else if key_lt(id, entries.last().0) {
            start_after(entries.drop_last(), cursor)
        } else {
            entries.len() as int
        },
    }
}

/// The size of a page for a requested `limit`: the request, thirty where none
/// is made, and never more than thirty.
pub open spec fn page_limit(limit: Option<u32>) -> int {
    let asked = match limit {
        Some(n) => n,
        None => DEFAULT_LIMIT,
    };
    if asked <= MAX_LIMIT { asked as int } else { MAX_LIMIT as int }
}

/// The size of a page for a requested `limit`.
pub fn page_size(limit: Option<u32>) -> (r: usize)
    ensures
        r == page_limit(limit),
{
    let asked: u32 = match limit {
        Some(n) => n,
        None => DEFAULT_LIMIT,
    };
    if asked <= MAX_LIMIT {
        asked as usize
    } else {
        MAX_LIMIT as usize
    }
}

/// The page of `entries` that resumes strictly after `cursor`: the next
/// entries in ascending order, as many as the limit allows.
pub open spec fn page_of<T>(entries: Seq<(Seq<char>, T)>, cursor: Option<Seq<char>>, limit: Option<u32>) -> Seq<(Seq<char>, T)> {
    let start = start_after(entries, cursor);
    let end = if start + page_limit(limit) <= entries.len() { start + page_limit(limit) } else { entries.len() as int };
    entries.subrange(start, end)
}

/// The identifier that a cursor names.
pub open spec fn cursor_view(cursor: Option<&String>) -> Option<Seq<char>> {
    match cursor {
        Some(id) => Some(id@),
        None => None,
    }
}

/// The identifier that an owned cursor names.
pub open spec fn owned_cursor(cursor: Option<String>) -> Option<Seq<char>> {
    match cursor {
        Some(id) => Some(id@),
        None => None,
    }
}

/// What a page of borrowed entries stands for.
pub open spec fn page_view<T>(page: Seq<(&String, &T)>) -> Seq<(Seq<char>, T)> {
    Seq::new(page.len(), |i: int| (page[i].0@, *page[i].1))
}

/// What a page of copied entries stands for.
pub open spec fn owned_page_view<T>(page: Seq<(String, T)>) -> Seq<(Seq<char>, T)> {
    Seq::new(page.len(), |i: int| (page[i].0@, page[i].1))
}

/// In ascending entries, an identifier is found at one place only.
pub proof fn lemma_ascending_unique<T>(entries: Seq<(Seq<char>, T)>, i: int, j: int)
    requires
        ascending(entries),
        0 <= i < entries.len(),
        0 <= j < entries.len(),
        entries[i].0 == entries[j].0,
    ensures
        i == j,
{
    lemma_key_lt_irreflexive(entries[i].0);
}

/// In ascending entries, the record at place `i` is the one that [`to_map`]
/// gives for its identifier.
pub proof fn lemma_to_map_at<T>(entries: Seq<(Seq<char>, T)>, i: int)
    requires
        ascending(entries),
        0 <= i < entries.len(),
    ensures
        to_map(entries).dom().contains(entries[i].0),
        to_map(entries)[entries[i].0] == entries[i].1,
{
    let id = entries[i].0;
    assert(has_key(entries, id));
    lemma_ascending_unique(entries, i, index_of(entries, id));
}

/// Where [`start_after`] lands: behind every entry that is not after the
/// cursor and in front of every entry that is.
pub proof fn lemma_start_after<T>(entries: Seq<(Seq<char>, T)>, id: Seq<char>)
    requires
        ascending(entries),
    ensures
        0 <= start_after(entries, Some(id)) <= entries.len(),
        forall|i: int| 0 <= i < start_after(entries, Some(id)) ==> !key_lt(id, #[trigger] entries[i].0),
        forall|i: int| start_after(entries, Some(id)) <= i < entries.len() ==> key_lt(id, #[trigger] entries[i].0),
    decreases entries.len(),
{
    if entries.len() == 0 {
    } else if key_lt(id, entries.last().0) {
        let front = entries.drop_last();
        assert(ascending(front)) by {
            assert forall|i: int, j: int| 0 <= i < j < front.len() implies key_lt(#[trigger] front[i].0, #[trigger] front[j].0) by {
                assert(front[i] == entries[i]);
                assert(front[j] == entries[j]);
            }
        }
        lemma_start_after(front, id);
        assert forall|i: int| 0 <= i < start_after(entries, Some(id)) implies !key_lt(id, #[trigger] entries[i].0) by {
            assert(front[i] == entries[i]);
        }
        assert forall|i: int| start_after(entries, Some(id)) <= i < entries.len() implies key_lt(id, #[trigger] entries[i].0) by {
            if i < front.len() {
                assert(front[i] == entries[i]);
            }
        }
    } else {
        let last = entries.len() - 1;
        assert forall|i: int| 0 <= i < entries.len() implies !key_lt(id, #[trigger] entries[i].0) by {
            if key_lt(id, entries[i].0) {
                if i < last {
                    lemma_key_lt_transitive(id, entries[i].0, entries[last].0);
                }
            }
        }
    }
}

/// A place that separates the entries not after the cursor from those after
/// it is the place that [`start_after`] gives.
pub proof fn lemma_start_after_is<T>(entries: Seq<(Seq<char>, T)>, id: Seq<char>, p: int)
    requires
        ascending(entries),
        0 <= p <= entries.len(),
        forall|i: int| 0 <= i < p ==> !key_lt(id, #[trigger] entries[i].0),
        forall|i: int| p <= i < entries.len() ==> key_lt(id, #[trigger] entries[i].0),
    ensures
        start_after(entries, Some(id)) == p,
{
    lemma_start_after(entries, id);
    let s = start_after(entries, Some(id));
    if s < p {
        assert(key_lt(id, entries[s].0));
    } else if p < s {
        assert(!key_lt(id, entries[p].0));
    }
}

/// The identifiers and records that a vector of slots holds.
spec fn slots_view<T>(slots: Seq<(String, T)>) -> Seq<(Seq<char>, T)> {
    Seq::new(slots.len(), |i: int| (slots[i].0@, slots[i].1))
}

/// A keyed store of records of one kind, kept in ascending order of their
/// identifiers. An identifier holds one record: saving under it again
/// replaces the record.
#[derive(Debug, PartialEq, Eq)]
pub struct RecordStore<T> {
    slots: Vec<(String, T)>,
}

impl<T> RecordStore<T> {
    /// The stored records with their identifiers, in ascending order.
    pub closed spec fn entries(&self) -> Seq<(Seq<char>, T)> {
        slots_view(self.slots@)
    }

    /// The store keeps its identifiers strictly ascending.
    #[verifier::type_invariant]
    pub open spec fn wf(&self) -> bool {
        ascending(self.entries())
    }

    /// The stored records by their identifiers.
    pub open spec fn view(&self) -> Map<Seq<char>, T> {
        to_map(self.entries())
    }

    /// An empty store.
    pub fn new() -> (r: Self)
        ensures
            r.entries() == Seq::<(Seq<char>, T)>::empty(),
            r@ == Map::<Seq<char>, T>::empty(),
            r.wf(),
    {
        let r = RecordStore { slots: Vec::new() };
        assert(r.entries() =~= Seq::<(Seq<char>, T)>::empty());
        assert(r@ =~= Map::<Seq<char>, T>::empty());
        r
    }

    /// The number of stored records.
    pub fn len(&self) -> (r: usize)
        ensures
            r == self.entries().len(),
    {
        self.slots.len()
    }

    /// The place where `id` is stored or would be: the number of stored
    /// identifiers that come before it; and whether it is stored there.
    fn locate(&self, id: &String) -> (r: (usize, bool))
        ensures
            r.0 <= self.entries().len(),
            forall|i: int| 0 <= i < r.0 ==> key_lt(#[trigger] self.entries()[i].0, id@),
            r.1 ==> r.0 < self.entries().len() && self.entries()[r.0 as int].0 == id@,
            forall|i: int| r.0 + (if r.1 { 1int } else { 0int }) <= i < self.entries().len() ==> key_lt(id@, #[trigger] self.entries()[i].0),
            r.1 == has_key(self.entries(), id@),
    {
        proof {
            use_type_invariant(self);
        }
        let ghost e = self.entries();
        let mut lo: usize = 0;
        let mut hi: usize = self.slots.len();
        while lo < hi
            invariant
                e == self.entries(),
                ascending(e),
                lo <= hi <= self.slots@.len(),
                self.slots@.len() == e.len(),
                forall|i: int| 0 <= i < lo ==> key_lt(#[trigger] e[i].0, id@),
                forall|i: int| hi <= i < e.len() ==> key_lt(id@, #[trigger] e[i].0),
            decreases hi - lo,
        {
            let mid = lo + (hi - lo) / 2;
            let order = compare_keys(&self.slots[mid].0, id);
            assert(e[mid as int].0 == self.slots@[mid as int].0@);
            match order {
                KeyOrder::Before => {
                    assert forall|i: int| 0 <= i < mid + 1 implies key_lt(#[trigger] e[i].0, id@) by {
                        if i < mid {
                            lemma_key_lt_transitive(e[i].0, e[mid as int].0, id@);
                        }
                    }
                    lo = mid + 1;
                },
                KeyOrder::After => {
                    assert forall|i: int| mid <= i < e.len() implies key_lt(id@, #[trigger] e[i].0) by {
                        if mid < i {
                            lemma_key_lt_transitive(id@, e[mid as int].0, e[i].0);
                        }
                    }
                    hi = mid;
                },
                KeyOrder::Same => {
                    proof {
                        assert forall|i: int| 0 <= i < mid implies key_lt(#[trigger] e[i].0, id@) by {}
                        assert forall|i: int| mid + 1 <= i < e.len() implies key_lt(id@, #[trigger] e[i].0) by {}
                        assert(has_key(e, id@));
                    }
                    return (mid, true);
                },
            }
        }
        proof {
            if has_key(e, id@) {
                let i = index_of(e, id@);
                lemma_key_lt_irreflexive(id@);
            }
        }
        (lo, false)
    }

    /// Whether a record is stored under `id`.
    pub fn contains(&self, id: &String) -> (r: bool)
        ensures
            r == self@.dom().contains(id@),
    {
        self.locate(id).1
    }

    /// The record stored under `id`; `NotFound` where there is none.
    pub fn load(&self, id: &String) -> (r: Result<&T, ContractError>)
        ensures
            match r {
                Ok(record) => loaded(self@, id@) == Ok::<T, ContractError>(*record),
                Err(e) => loaded(self@, id@) == Err::<T, ContractError>(e),
            },
    {
        proof {
            use_type_invariant(self);
        }
        let (place, found) = self.locate(id);
        if found {
            proof {
                lemma_to_map_at(self.entries(), place as int);
            }
            Ok(&self.slots[place].1)
        } else {
            Err(ContractError::NotFound)
        }
    }

    /// Stores `record` under `id`. A record already stored under `id` is
    /// replaced; every other record stays.
    pub fn save(&mut self, id: String, record: T)
        ensures
            final(self)@ == saved(old(self)@, id@, record),
            final(self).wf(),
    {
        proof {
            use_type_invariant(&*self);
        }
        let ghost before = self.entries();
        let (place, found) = self.locate(&id);
        let ghost key = id@;
        let mut slots: Vec<(String, T)> = Vec::new();
        core::mem::swap(&mut self.slots, &mut slots);
        if found {
            slots.set(place, (id, record));
        } else {
            slots.insert(place, (id, record));
        }
        proof {
            let after = slots_view(slots@);
            if found {
                assert(after =~= before.update(place as int, (key, record)));
                assert forall|i: int, j: int| 0 <= i < j < after.len() implies key_lt(#[trigger] after[i].0, #[trigger] after[j].0) by {
                    assert(after[i].0 == before[i].0);
                    assert(after[j].0 == before[j].0);
                }
            } else {
                assert(after =~= before.insert(place as int, (key, record)));
                assert forall|i: int, j: int| 0 <= i < j < after.len() implies key_lt(#[trigger] after[i].0, #[trigger] after[j].0) by {
                    let a = if i < place { i } else { i - 1 };
                    let b = if j < place { j } else { j - 1 };
                    if i != place {
                        assert(after[i] == before[a]);
                    }
                    if j != place {
                        assert(after[j] == before[b]);
                    }
                }
            }
            lemma_saved(before, after, place as int, key, record);
        }
        self.slots = slots;
    }

    /// One page of the store: the records whose identifiers come strictly
    /// after `start_after` (all of them where none is given), in ascending
    /// order, at most `limit` of them and never more than thirty.
    pub fn range<'a>(&'a self, start_after: Option<&String>, limit: Option<u32>) -> (page: Vec<(&'a String, &'a T)>)
        ensures
            page_view(page@) == page_of(self.entries(), cursor_view(start_after), limit),
    {
        proof {
            use_type_invariant(self);
        }
        let ghost e = self.entries();
        let ghost cursor: Option<Seq<char>> = match start_after {
            Some(id) => Some(id@),
            None => None,
        };
        let start: usize = match start_after {
            Some(id) => {
                let (place, found) = self.locate(id);
                let count = self.slots.len();
                assert(e.len() == count);
                let first = if found { place + 1 } else { place };
                proof {
                    assert forall|i: int| 0 <= i < first implies !key_lt(id@, #[trigger] e[i].0) by {
                        if i < place {
                            lemma_key_lt_asymmetric(e[i].0, id@);
                        } else {
                            lemma_key_lt_irreflexive(id@);
                        }
                    }
                    lemma_start_after_is(e, id@, first as int);
                }
                first
            },
            None => 0,
        };
        let size: usize = page_size(limit);
        let end: usize = if self.slots.len() - start >= size { start + size } else { self.slots.len() };
        let mut page: Vec<(&'a String, &'a T)> = Vec::new();
        let mut i: usize = start;
        while i < end
            invariant
                start <= i <= end <= self.slots@.len(),
                e == self.entries(),
                page@.len() == i - start,
                forall|k: int| 0 <= k < page@.len() ==> (#[trigger] page@[k]).0@ == e[start + k].0 && *page@[k].1 == e[start + k].1,
            decreases end - i,
        {
            let slot = &self.slots[i];
            page.push((&slot.0, &slot.1));
            i += 1;
        }
        assert(page_view(page@) =~= e.subrange(start as int, end as int));
        page
    }

    /// One page of the store, as [`RecordStore::range`] gives it, with a copy
    /// of each record.
    pub fn page(&self, start_after: Option<&String>, limit: Option<u32>) -> (page: Vec<(String, T)>) where T: Clone
        ensures
            page@.len() == page_of(self.entries(), cursor_view(start_after), limit).len(),
            forall|i: int| 0 <= i < page@.len() ==> {
                let entry = page_of(self.entries(), cursor_view(start_after), limit)[i];
                &&& (#[trigger] page@[i]).0@ == entry.0
                &&& cloned(entry.1, page@[i].1)
            },
    {
        let borrowed = self.range(start_after, limit);
        let ghost wanted = page_of(self.entries(), cursor_view(start_after), limit);
        assert(page_view(borrowed@).len() == borrowed@.len());
        let mut page: Vec<(String, T)> = Vec::new();
        let mut i: usize = 0;
        while i < borrowed.len()
            invariant
                i <= borrowed@.len(),
                page@.len() == i,
                page_view(borrowed@) == wanted,
                forall|k: int| 0 <= k < i ==> (#[trigger] page@[k]).0@ == wanted[k].0 && cloned(wanted[k].1, page@[k].1),
            decreases borrowed@.len() - i,
        {
            let entry = &borrowed[i];
            assert(page_view(borrowed@)[i as int] == (entry.0@, *entry.1));
            page.push((entry.0.clone(), entry.1.clone()));
            i += 1;
        }
        page
    }
}

impl<T: Clone> Clone for RecordStore<T> {
    /// A store with the same identifiers, each with a copy of its record.
    fn clone(&self) -> (r: Self)
        ensures
            r.entries().len() == self.entries().len(),
            forall|i: int| 0 <= i < r.entries().len() ==> {
                &&& (#[trigger] r.entries()[i]).0 == self.entries()[i].0
                &&& cloned(self.entries()[i].1, r.entries()[i].1)
            },
    {
        proof {
            use_type_invariant(self);
        }
        let mut slots: Vec<(String, T)> = Vec::new();
        let mut i: usize = 0;
        while i < self.slots.len()
            invariant
                i <= self.slots@.len(),
                slots@.len() == i,
                forall|k: int| 0 <= k < i ==> (#[trigger] slots@[k]).0 == self.slots@[k].0 && cloned(
                    self.slots@[k].1,
                    slots@[k].1,
                ),
            decreases self.slots@.len() - i,
        {
            let slot = &self.slots[i];
            slots.push((slot.0.clone(), slot.1.clone()));
            i += 1;
        }
        proof {
            let before = self.entries();
            let after = slots_view(slots@);
            assert forall|a: int, b: int| 0 <= a < b < after.len() implies key_lt(#[trigger] after[a].0, #[trigger] after[b].0) by {
                assert(after[a].0 == before[a].0);
                assert(after[b].0 == before[b].0);
            }
        }
        RecordStore { slots }
    }
}

/// Replacing or inserting the entry for `id` at its place stores `record`
/// under `id` and leaves every other record as it was.
proof fn lemma_saved<T>(before: Seq<(Seq<char>, T)>, after: Seq<(Seq<char>, T)>, place: int, id: Seq<char>, record: T)
    requires
        ascending(before),
        ascending(after),
        0 <= place <= before.len(),
        after == before.insert(place, (id, record)) && !has_key(before, id) || place < before.len()
            && before[place].0 == id && after == before.update(place, (id, record)),
    ensures
        to_map(after) == to_map(before).insert(id, record),
{
    let replaced = place < before.len() && before[place].0 == id && after == before.update(place, (id, record));
    assert(after[place] == (id, record));
    lemma_to_map_at(after, place);
    assert forall|k: Seq<char>| to_map(after).dom().contains(k) <==> #[trigger] to_map(before).insert(id, record).dom().contains(k) by {
        if has_key(after, k) {
            let i = index_of(after, k);
            if i != place {
                if replaced {
                    assert(before[i].0 == k);
                } else {
                    let a = if i < place { i } else { i - 1 };
                    assert(before[a].0 == k);
                }
            }
        }
        if has_key(before, k) {
            let i = index_of(before, k);
            if replaced {
                assert(after[i].0 == k);
            } else {
                let a = if i < place { i } else { i + 1 };
                assert(after[a].0 == k);
            }
        }
    }
    assert forall|k: Seq<char>| #[trigger] to_map(after).dom().contains(k) implies to_map(after)[k] == to_map(before).insert(id, record)[k] by {
        if k != id {
            let i = index_of(after, k);
            lemma_to_map_at(after, i);
            if replaced {
                assert(before[i] == after[i]);
                lemma_to_map_at(before, i);
            } else {
                let a = if i < place { i } else { i - 1 };
                assert(before[a] == after[i]);
                lemma_to_map_at(before, a);
            }
        }
    }
    assert(to_map(after) =~= to_map(before).insert(id, record));
}

/// Round trip: a record saved under an identifier is the record that a
/// lookup of that identifier gives, whatever the store held before.
pub proof fn law_save_then_load<T>(records: Map<Seq<char>, T>, id: Seq<char>, record: T)
    ensures
        loaded(saved(records, id, record), id) == Ok::<T, ContractError>(record),
{
}

/// Saving under one identifier changes no lookup of another.
pub proof fn law_save_keeps_others<T>(records: Map<Seq<char>, T>, id: Seq<char>, record: T, other: Seq<char>)
    requires
        other != id,
    ensures
        loaded(saved(records, id, record), other) == loaded(records, other),
{
}

/// A page never holds more than thirty records, nor more than were asked for.
pub proof fn law_page_is_capped<T>(entries: Seq<(Seq<char>, T)>, cursor: Option<Seq<char>>, limit: Option<u32>)
    requires
        ascending(entries),
    ensures
        page_of(entries, cursor, limit).len() <= MAX_LIMIT,
        limit matches Some(n) ==> page_of(entries, cursor, limit).len() <= n,
{
    if let Some(id) = cursor {
        lemma_start_after(entries, id);
    }
}

/// A page holds entries of the store in their ascending order, each after the
/// cursor, and it skips none: the entries before it are not after the cursor.
pub proof fn law_page_follows_cursor<T>(entries: Seq<(Seq<char>, T)>, id: Seq<char>, limit: Option<u32>)
    requires
        ascending(entries),
    ensures
        ascending(page_of(entries, Some(id), limit)),
        forall|i: int| 0 <= i < page_of(entries, Some(id), limit).len() ==> key_lt(id, #[trigger] page_of(entries, Some(id), limit)[i].0),
{
    lemma_start_after(entries, id);
    let start = start_after(entries, Some(id));
    let page = page_of(entries, Some(id), limit);
    assert forall|i: int, j: int| 0 <= i < j < page.len() implies key_lt(#[trigger] page[i].0, #[trigger] page[j].0) by {
        assert(page[i] == entries[start + i]);
        assert(page[j] == entries[start + j]);
    }
    assert forall|i: int| 0 <= i < page.len() implies key_lt(id, #[trigger] page[i].0) by {
        assert(page[i] == entries[start + i]);
    }
}

/// Pagination: a page taken from the start, followed by the page that
/// resumes after the last identifier of the first, is the store's leading
/// run of entries. The two pages together ascend strictly, so no identifier
/// occurs twice and none between them is left out.
pub proof fn law_pages_join<T>(entries: Seq<(Seq<char>, T)>, first_limit: Option<u32>, second_limit: Option<u32>)
    requires
        ascending(entries),
        page_of(entries, None, first_limit).len() > 0,
    ensures
        ({
            let first = page_of(entries, None, first_limit);
            let second = page_of(entries, Some(first.last().0), second_limit);
            &&& first + second == entries.subrange(0, (first.len() + second.len()) as int)
            &&& ascending(first + second)
        }),
{
    let first = page_of(entries, None, first_limit);
    let last = first.len() - 1;
    assert(first[last] == entries[last]);
    lemma_start_after_at(entries, last);
    let second = page_of(entries, Some(first.last().0), second_limit);
    let both = first + second;
    assert(both =~= entries.subrange(0, (first.len() + second.len()) as int));
    assert forall|i: int, j: int| 0 <= i < j < both.len() implies key_lt(#[trigger] both[i].0, #[trigger] both[j].0) by {
        assert(both[i] == entries[i]);
        assert(both[j] == entries[j]);
    }
}

/// A page that resumes after the identifier stored at place `j` starts at the
/// place behind it.
pub proof fn lemma_start_after_at<T>(entries: Seq<(Seq<char>, T)>, j: int)
    requires
        ascending(entries),
        0 <= j < entries.len(),
    ensures
        start_after(entries, Some(entries[j].0)) == j + 1,
{
    let id = entries[j].0;
    assert forall|i: int| 0 <= i < j + 1 implies !key_lt(id, #[trigger] entries[i].0) by {
        if i < j {
            lemma_key_lt_asymmetric(entries[i].0, id);
        } else {
            lemma_key_lt_irreflexive(id);
        }
    }
    lemma_start_after_is(entries, id, j + 1);
}

/// Ascending entries without their last are the same records without the
/// last identifier.
proof fn lemma_to_map_drop_last<T>(entries: Seq<(Seq<char>, T)>)
    requires
        ascending(entries),
        entries.len() > 0,
    ensures
        ascending(entries.drop_last()),
        to_map(entries.drop_last()) == to_map(entries).remove(entries.last().0),
{
    let front = entries.drop_last();
    let last = entries.len() - 1;
    assert forall|i: int, j: int| 0 <= i < j < front.len() implies key_lt(#[trigger] front[i].0, #[trigger] front[j].0) by {
        assert(front[i] == entries[i]);
        assert(front[j] == entries[j]);
    }
    let rest = to_map(entries).remove(entries.last().0);
    assert forall|k: Seq<char>| to_map(front).dom().contains(k) <==> #[trigger] rest.dom().contains(k) by {
        if has_key(front, k) {
            let i = index_of(front, k);
            assert(entries[i].0 == k);
            if k == entries.last().0 {
                lemma_ascending_unique(entries, i, last);
            }
        }
        if has_key(entries, k) && k != entries.last().0 {
            let i = index_of(entries, k);
            assert(front[i].0 == k);
        }
    }
    assert forall|k: Seq<char>| #[trigger] to_map(front).dom().contains(k) implies to_map(front)[k] == rest[k] by {
        let i = index_of(front, k);
        lemma_to_map_at(front, i);
        assert(front[i] == entries[i]);
        lemma_to_map_at(entries, i);
    }
    assert(to_map(front) =~= rest);
}

/// The order of a store is no second piece of state: ascending entries that
/// hold the same records under the same identifiers are the same entries.
pub proof fn law_entries_follow_records<T>(a: Seq<(Seq<char>, T)>, b: Seq<(Seq<char>, T)>)
    requires
        ascending(a),
        ascending(b),
        to_map(a) == to_map(b),
    ensures
        a == b,
    decreases a.len(),
{
    if a.len() == 0 {
        if b.len() > 0 {
            lemma_to_map_at(b, 0);
            assert(has_key(a, b[0].0));
        }
        assert(a =~= b);
    } else {
        let last_a = a.len() - 1;
        lemma_to_map_at(a, last_a);
        assert(has_key(b, a[last_a].0));
        let j = index_of(b, a[last_a].0);
        let last_b = b.len() - 1;
        lemma_to_map_at(b, last_b);
        assert(has_key(a, b[last_b].0));
        let i = index_of(a, b[last_b].0);
        if j < last_b {
            if i < last_a {
                lemma_key_lt_transitive(b[j].0, b[last_b].0, a[last_a].0);
            }
            lemma_key_lt_irreflexive(b[j].0);
        }
        lemma_to_map_at(b, j);
        lemma_to_map_drop_last(a);
        lemma_to_map_drop_last(b);
        law_entries_follow_records(a.drop_last(), b.drop_last());
        assert(a =~= a.drop_last().push(a.last()));
        assert(b =~= b.drop_last().push(b.last()));
    }
}

} // verus!
