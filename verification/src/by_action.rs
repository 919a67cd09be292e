//! What is kept for each action of an agent.

use vstd::prelude::*;

verus! {

/// Identifies an action of an agent.
#[derive(Clone, Debug)]
pub struct AIAgentActionId(pub String);

/// At most one value for each action. Its view is a map from the ids of the actions.
#[derive(Clone, Debug)]
pub struct ByAction<T> {
    entries: Vec<(AIAgentActionId, T)>,
}

/// The value that `entries` hold for `id`: that of the last entry for it.
spec fn entry_for<T>(entries: Seq<(AIAgentActionId, T)>, id: Seq<char>) -> Option<T>
    decreases entries.len(),
{
    if entries.len() == 0 {
        None
    } else if entries.last().0.0@ == id {
        Some(entries.last().1)
    } else {
        entry_for(entries.drop_last(), id)
    }
}

impl<T> View for ByAction<T> {
    type V = Map<Seq<char>, T>;

    closed spec fn view(&self) -> Map<Seq<char>, T> {
        Map::new(
            |id: Seq<char>| entry_for(self.entries@, id) is Some,
            |id: Seq<char>| entry_for(self.entries@, id)->0,
        )
    }
}

proof fn lemma_last_entry_counts<T>(entries: Seq<(AIAgentActionId, T)>, id: Seq<char>, from: int)
    requires
        0 <= from <= entries.len(),
        forall|i: int| from <= i < entries.len() ==> (#[trigger] entries[i]).0.0@ != id,
    ensures
        entry_for(entries, id) == entry_for(entries.take(from), id),
    decreases entries.len() - from,
{
    if from < entries.len() {
        assert(entries[entries.len() - 1].0.0@ != id);
        lemma_last_entry_counts(entries.drop_last(), id, from);
        assert(entries.drop_last().take(from) == entries.take(from));
    } else {
        assert(entries.take(from) == entries);
    }
}

proof fn lemma_other_entries_stay<T>(
    entries: Seq<(AIAgentActionId, T)>,
    at: int,
    entry: (AIAgentActionId, T),
    id: Seq<char>,
)
    requires
        0 <= at < entries.len(),
        entries[at].0.0@ == entry.0.0@,
        id != entry.0.0@,
    ensures
        entry_for(entries.update(at, entry), id) == entry_for(entries, id),
    decreases entries.len(),
{
    let updated = entries.update(at, entry);
    if at == entries.len() - 1 {
        assert(updated.drop_last() == entries.drop_last());
    } else {
        assert(updated.drop_last() == entries.drop_last().update(at, entry));
        lemma_other_entries_stay(entries.drop_last(), at, entry, id);
    }
}

impl<T> ByAction<T> {
    /// Nothing for any action.
    pub fn new() -> (r: Self)
        ensures
            r@ == Map::<Seq<char>, T>::empty(),
    {
        let r = ByAction { entries: Vec::new() };
        assert(r@ =~= Map::<Seq<char>, T>::empty());
        r
    }

    /// The number of the last entry for `id`.
    fn position(&self, id: &AIAgentActionId) -> (r: Option<usize>)
        ensures
            match r {
                Some(at) => {
                    &&& at < self.entries@.len()
                    &&& self.entries@[at as int].0.0@ == id.0@
                    &&& entry_for(self.entries@, id.0@) == Some(self.entries@[at as int].1)
                    &&& forall|i: int|
                        at < i < self.entries@.len() ==> (#[trigger] self.entries@[i]).0.0@ != id.0@
                },
                None => entry_for(self.entries@, id.0@) is None,
            },
    {
        let mut from: usize = self.entries.len();
        while from > 0
            invariant
                from <= self.entries@.len(),
                forall|i: int|
                    from <= i < self.entries@.len() ==> (#[trigger] self.entries@[i]).0.0@ != id.0@,
            decreases from,
        {
            if self.entries[from - 1].0.0 == id.0 {
                proof {
                    lemma_last_entry_counts(self.entries@, id.0@, from as int);
                    assert(self.entries@.take(from as int).last() == self.entries@[from - 1]);
                }
                return Some(from - 1);
            }
            from = from - 1;
        }
        proof {
            lemma_last_entry_counts(self.entries@, id.0@, 0);
        }
        None
    }

    /// What is kept for `id`.
    pub fn get(&self, id: &AIAgentActionId) -> (r: Option<&T>)
        ensures
            match r {
                Some(value) => self@.contains_key(id.0@) && *value == self@[id.0@],
                None => !self@.contains_key(id.0@),
            },
    {
        match self.position(id) {
            Some(at) => Some(&self.entries[at].1),
            None => None,
        }
    }

    /// Keeps `value` for `id`, in place of what was kept for it before.
    pub fn insert(&mut self, id: AIAgentActionId, value: T)
        ensures
            final(self)@ == old(self)@.insert(id.0@, value),
    {
        let ghost before = self.entries@;
        let ghost entry = (id, value);
        match self.position(&id) {
            Some(at) => {
                self.entries.set(at, (id, value));
                proof {
                    let after = before.update(at as int, entry);
                    assert(self.entries@ == after);
                    lemma_last_entry_counts(after, id.0@, at + 1);
                    assert(after.take(at + 1).last() == entry);
                    assert forall|other: Seq<char>| other != id.0@ implies #[trigger] entry_for(
                        after,
                        other,
                    ) == entry_for(before, other) by {
                        lemma_other_entries_stay(before, at as int, entry, other);
                    }
                }
            },
            None => {
                self.entries.push((id, value));
                proof {
                    let after = before.push(entry);
                    assert(self.entries@ == after);
                    assert(after.drop_last() == before);
                }
            },
        }
        assert(self@ =~= old(self)@.insert(id.0@, value));
    }
}

} // verus!
