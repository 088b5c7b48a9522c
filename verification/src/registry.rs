//! The session registry: which sessions exist, and the handles of each.
//!
//! The registry is modelled as a finite map from identifier to handle set. It
//! is generic in the handle set, of which it reads nothing.

use vstd::prelude::*;
use crate::text::texts;

verus! {

/// One registered session.
struct Entry<H> {
    id: String,
    handle: H,
}

/// A mapping from session identifier to the handles of the session. An
/// identifier is present exactly while its session is live.
pub struct Registry<H> {
    entries: Vec<Entry<H>>,
}

/// The identifiers of `entries`, in order.
spec fn entry_ids<H>(entries: Seq<Entry<H>>) -> Seq<Seq<char>> {
    entries.map_values(|entry: Entry<H>| entry.id@)
}

/// The map that `entries` stand for: each identifier to the handle beside it.
spec fn entries_map<H>(entries: Seq<Entry<H>>) -> Map<Seq<char>, H> {
    Map::new(
        |id: Seq<char>| entry_ids(entries).contains(id),
        |id: Seq<char>| entries[entry_ids(entries).index_of(id)].handle,
    )
}

/// In a list without a repeated identifier, the identifier at `i` is found at `i`.
proof fn lemma_index_of_id<H>(entries: Seq<Entry<H>>, i: int)
    requires
        entry_ids(entries).no_duplicates(),
        0 <= i < entries.len(),
    ensures
        entry_ids(entries).contains(entries[i].id@),
        entry_ids(entries).index_of(entries[i].id@) == i,
        entries_map(entries).dom().contains(entries[i].id@),
        entries_map(entries)[entries[i].id@] == entries[i].handle,
{
    let ids = entry_ids(entries);
    assert(ids[i] == entries[i].id@);
    let j = ids.index_of(entries[i].id@);
    assert(0 <= j < ids.len() && ids[j] == entries[i].id@);
}

/// The domain of the map is the set of the listed identifiers, which is as
/// large as the list is long.
proof fn lemma_domain<H>(entries: Seq<Entry<H>>)
    requires
        entry_ids(entries).no_duplicates(),
    ensures
        entries_map(entries).dom() == entry_ids(entries).to_set(),
        entries_map(entries).dom().finite(),
        entries_map(entries).dom().len() == entries.len(),
{
    let ids = entry_ids(entries);
    assert(entries_map(entries).dom() =~= ids.to_set());
    vstd::seq_lib::seq_to_set_is_finite(ids);
    ids.unique_seq_to_set();
}

/// Appending an entry under a new identifier inserts it into the map.
proof fn lemma_push<H>(entries: Seq<Entry<H>>, entry: Entry<H>)
    requires
        entry_ids(entries).no_duplicates(),
        !entry_ids(entries).contains(entry.id@),
    ensures
        entry_ids(entries.push(entry)).no_duplicates(),
        entries_map(entries.push(entry)) == entries_map(entries).insert(entry.id@, entry.handle),
{
    let ids = entry_ids(entries);
    let after = entries.push(entry);
    let ids_after = entry_ids(after);
    assert(ids_after =~= ids.push(entry.id@));
    assert forall|i: int, j: int| 0 <= i < j < ids_after.len() implies ids_after[i]
        != ids_after[j] by {
        if j < ids.len() {
            assert(ids[i] != ids[j]);
        } else {
            assert(ids[i] == ids_after[i]);
        }
    }
    assert forall|id: Seq<char>| ids_after.contains(id) <==> (ids.contains(id) || id
        == entry.id@) by {
        if ids.contains(id) {
            let i = ids.index_of(id);
            assert(ids_after[i] == id);
        }
        if id == entry.id@ {
            assert(ids_after[ids.len() as int] == id);
        }
        if ids_after.contains(id) {
            let i = ids_after.index_of(id);
            if i < ids.len() {
                assert(ids[i] == id);
            }
        }
    }
    let target = entries_map(entries).insert(entry.id@, entry.handle);
    assert forall|id: Seq<char>| ids_after.contains(id) implies #[trigger] entries_map(after)[id]
        == target[id] by {
        let i = ids_after.index_of(id);
        lemma_index_of_id(after, i);
        if i < ids.len() {
            lemma_index_of_id(entries, i);
            assert(after[i] == entries[i]);
        }
    }
    assert(entries_map(after) =~= target);
}

/// Taking the entry at `i` out of the list removes its identifier from the map.
proof fn lemma_remove<H>(entries: Seq<Entry<H>>, i: int)
    requires
        entry_ids(entries).no_duplicates(),
        0 <= i < entries.len(),
    ensures
        entry_ids(entries.remove(i)).no_duplicates(),
        !entry_ids(entries.remove(i)).contains(entries[i].id@),
        entries_map(entries.remove(i)) == entries_map(entries).remove(entries[i].id@),
{
    let ids = entry_ids(entries);
    let after = entries.remove(i);
    let ids_after = entry_ids(after);
    let gone = entries[i].id@;
    assert(ids_after =~= ids.remove(i));
    assert forall|a: int, b: int| 0 <= a < b < ids_after.len() implies ids_after[a]
        != ids_after[b] by {
        let a0 = if a < i { a } else { a + 1 };
        let b0 = if b < i { b } else { b + 1 };
        assert(ids_after[a] == ids[a0]);
        assert(ids_after[b] == ids[b0]);
    }
    assert forall|id: Seq<char>| ids_after.contains(id) <==> (ids.contains(id) && id != gone) by {
        if ids_after.contains(id) {
            let a = ids_after.index_of(id);
            let a0 = if a < i { a } else { a + 1 };
            assert(ids[a0] == id);
            assert(ids[i] == gone);
        }
        if ids.contains(id) && id != gone {
            let a0 = ids.index_of(id);
            assert(ids[i] == gone);
            let a = if a0 < i { a0 } else { a0 - 1 };
            assert(ids_after[a] == id);
        }
    }
    let target = entries_map(entries).remove(gone);
    assert forall|id: Seq<char>| ids_after.contains(id) implies #[trigger] entries_map(after)[id]
        == target[id] by {
        let a = ids_after.index_of(id);
        let a0 = if a < i { a } else { a + 1 };
        lemma_index_of_id(after, a);
        assert(ids[a0] == id);
        lemma_index_of_id(entries, a0);
        assert(after[a] == entries[a0]);
    }
    assert(entries_map(after) =~= target);
}

impl<H> View for Registry<H> {
    type V = Map<Seq<char>, H>;

    closed spec fn view(&self) -> Map<Seq<char>, H> {
        entries_map(self.entries@)
    }
}

impl<H> Registry<H> {
    #[verifier::type_invariant]
    spec fn well_formed(self) -> bool {
        entry_ids(self.entries@).no_duplicates()
    }

    /// A registry without sessions.
    pub fn new() -> (registry: Registry<H>)
        ensures
            registry@ == Map::<Seq<char>, H>::empty(),
    {
        let registry = Registry { entries: Vec::new() };
        assert(registry@ =~= Map::<Seq<char>, H>::empty());
        registry
    }

    /// Where the entry of `id` stands, if it has one.
    fn position(&self, id: &str) -> (found: Option<usize>)
        ensures
            match found {
                Some(i) => i < self.entries@.len() && self.entries@[i as int].id@ == id@,
                None => !entry_ids(self.entries@).contains(id@),
            },
    {
        let wanted = id.to_owned();
        let mut i: usize = 0;
        while i < self.entries.len()
            invariant
                i <= self.entries@.len(),
                wanted@ == id@,
                forall|k: int| 0 <= k < i ==> self.entries@[k].id@ != id@,
            decreases self.entries@.len() - i,
        {
            if self.entries[i].id == wanted {
                return Some(i);
            }
            i += 1;
        }
        proof {
            let ids = entry_ids(self.entries@);
            if ids.contains(id@) {
                let k = ids.index_of(id@);
                assert(self.entries@[k].id@ == id@);
            }
        }
        None
    }

    /// The number of registered sessions.
    pub fn len(&self) -> (count: usize)
        ensures
            self@.dom().finite(),
            count == self@.dom().len(),
    {
        proof {
            use_type_invariant(self);
            lemma_domain(self.entries@);
        }
        self.entries.len()
    }

    /// Whether `id` is registered.
    pub fn contains(&self, id: &str) -> (present: bool)
        ensures
            present == self@.dom().contains(id@),
    {
        match self.position(id) {
            Some(i) => {
                assert(entry_ids(self.entries@)[i as int] == id@);
                true
            },
            None => false,
        }
    }

    /// The handles registered under `id`. The registry keeps them: the
    /// caller gets a reference to use once the critical section is left.
    pub fn get(&self, id: &str) -> (found: Option<&H>)
        ensures
            match found {
                Some(handle) => self@.dom().contains(id@) && *handle == self@[id@],
                None => !self@.dom().contains(id@),
            },
    {
        proof {
            use_type_invariant(self);
        }
        match self.position(id) {
            Some(i) => {
                proof {
                    lemma_index_of_id(self.entries@, i as int);
                }
                Some(&self.entries[i].handle)
            },
            None => None,
        }
    }

    /// Registers `handle` under `id`. Handles already registered under `id`
    /// are replaced and returned.
    pub fn insert(&mut self, id: String, handle: H) -> (replaced: Option<H>)
        ensures
            final(self)@ == old(self)@.insert(id@, handle),
            replaced == if old(self)@.dom().contains(id@) {
                Some(old(self)@[id@])
            } else {
                None::<H>
            },
    {
        proof {
            use_type_invariant(&*self);
        }
        let found = self.position(id.as_str());
        let mut entries: Vec<Entry<H>> = Vec::new();
        std::mem::swap(&mut entries, &mut self.entries);
        let ghost before = entries@;
        let entry = Entry { id, handle };
        let replaced = match found {
            Some(i) => {
                proof {
                    lemma_index_of_id(before, i as int);
                    lemma_remove(before, i as int);
                }
                let previous = entries.remove(i);
                Some(previous.handle)
            },
            None => None,
        };
        proof {
            lemma_push(entries@, entry);
            assert(entries_map(entries@).insert(entry.id@, entry.handle) =~= entries_map(
                before,
            ).insert(entry.id@, entry.handle));
        }
        entries.push(entry);
        self.entries = entries;
        replaced
    }

    /// Takes `id` out of the registry and returns its handles. Removing an
    /// identifier that is not registered changes nothing.
    pub fn remove(&mut self, id: &str) -> (removed: Option<H>)
        ensures
            final(self)@ == old(self)@.remove(id@),
            removed == if old(self)@.dom().contains(id@) {
                Some(old(self)@[id@])
            } else {
                None::<H>
            },
    {
        proof {
            use_type_invariant(&*self);
        }
        match self.position(id) {
            Some(i) => {
                let mut entries: Vec<Entry<H>> = Vec::new();
                std::mem::swap(&mut entries, &mut self.entries);
                proof {
                    lemma_index_of_id(entries@, i as int);
                    lemma_remove(entries@, i as int);
                }
                let entry = entries.remove(i);
                self.entries = entries;
                Some(entry.handle)
            },
            None => {
                assert(self@ =~= self@.remove(id@));
                None
            },
        }
    }

    /// The identifiers of all registered sessions, each once.
    pub fn list(&self) -> (ids: Vec<String>)
        ensures
            texts(ids@).no_duplicates(),
            texts(ids@).to_set() == self@.dom(),
            ids@.len() == self@.dom().len(),
    {
        proof {
            use_type_invariant(self);
            lemma_domain(self.entries@);
        }
        let mut ids: Vec<String> = Vec::new();
        let mut i: usize = 0;
        while i < self.entries.len()
            invariant
                i <= self.entries@.len(),
                texts(ids@) == entry_ids(self.entries@).subrange(0, i as int),
            decreases self.entries@.len() - i,
        {
            let id = self.entries[i].id.clone();
            let ghost listed = ids@;
            ids.push(id);
            assert(texts(ids@) =~= texts(listed).push(id@));
            assert(entry_ids(self.entries@)[i as int] == id@);
            assert(texts(ids@) =~= entry_ids(self.entries@).subrange(0, i + 1));
            i += 1;
        }
        assert(texts(ids@) =~= entry_ids(self.entries@));
        ids
    }
}

} // verus!
