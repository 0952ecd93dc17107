//! The artifact store: one LaTeX text per document identifier.
//!
//! The store is a key-value map from document identifier to assembled
//! LaTeX text, with one entry per document: writing an identifier again
//! replaces its text (last writer wins), and reading an absent identifier
//! is a not-found condition, never a crash. The persistence of the entries
//! (one file per identifier under a storage root) lives outside the
//! library; this module pins down the store's contents.

use vstd::prelude::*;

use crate::errors::ApiError;

verus! {

/// The map that a sequence of store entries denotes; a later entry for an
/// identifier overrides an earlier one.
pub open spec fn contents_of(entries: Seq<(String, String)>) -> Map<Seq<char>, Seq<char>>
    decreases entries.len(),
{
    if entries.len() == 0 {
        Map::<Seq<char>, Seq<char>>::empty()
    } else {
        contents_of(entries.drop_last()).insert(entries.last().0@, entries.last().1@)
    }
}

/// The store of assembled LaTeX artifacts, keyed by document identifier.
pub struct ArtifactStore {
    entries: Vec<(String, String)>,
}

impl ArtifactStore {
    /// The store's invariant: every identifier holds at most one entry.
    pub closed spec fn wf(&self) -> bool {
        forall|i: int, j: int|
            0 <= i < j < self.entries@.len() ==> self.entries@[i].0@ != self.entries@[j].0@
    }

    /// What the store holds: the artifact text of each stored identifier.
    pub closed spec fn contents(&self) -> Map<Seq<char>, Seq<char>> {
        contents_of(self.entries@)
    }

    /// An empty store.
    pub fn new() -> (store: ArtifactStore)
        ensures
            store.wf(),
            store.contents() == Map::<Seq<char>, Seq<char>>::empty(),
    {
        ArtifactStore { entries: Vec::new() }
    }

    /// The position of an identifier's entry, if it has one.
    fn find(&self, id: &String) -> (position: Option<usize>)
        ensures
            position matches Some(i) ==> i < self.entries@.len() && self.entries@[i as int].0@
                == id@,
            position is None ==> forall|i: int|
                0 <= i < self.entries@.len() ==> self.entries@[i].0@ != id@,
    {
        let mut index: usize = 0;
        while index < self.entries.len()
            invariant
                index <= self.entries@.len(),
                forall|i: int| 0 <= i < index ==> self.entries@[i].0@ != id@,
            decreases self.entries@.len() - index,
        {
            if self.entries[index].0 == *id {
                return Some(index);
            }
            index = index + 1;
        }
        None
    }

    /// Stores `text` as the artifact of `id`, replacing any earlier text
    /// under the same identifier: afterwards the store holds exactly its
    /// old contents with `id` bound to `text`.
    pub fn put(&mut self, id: &String, text: &String)
        requires
            old(self).wf(),
        ensures
            final(self).wf(),
            final(self).contents() == old(self).contents().insert(id@, text@),
    {
        let position = self.find(id);
        match position {
            Some(index) => {
                let replacement = (id.clone(), text.clone());
                proof {
                    lemma_contents_update(old(self).entries@, index as int, replacement);
                }
                self.entries.set(index, replacement);
            },
            None => {
                self.entries.push((id.clone(), text.clone()));
                proof {
                    assert(self.entries@.drop_last() =~= old(self).entries@);
                }
            },
        }
    }

    /// Reads the artifact stored for `id`: its text when the store holds
    /// the identifier, and a not-found error exactly when it does not.
    pub fn get(&self, id: &String) -> (artifact: Result<String, ApiError>)
        requires
            self.wf(),
        ensures
            artifact is Ok <==> self.contents().contains_key(id@),
            artifact is Ok ==> artifact->Ok_0@ == self.contents()[id@],
            artifact is Err ==> artifact->Err_0 is NotFound,
    {
        let position = self.find(id);
        match position {
            Some(index) => {
                proof {
                    lemma_contents_at(self.entries@, index as int);
                }
                Ok(self.entries[index].1.clone())
            },
            None => {
                proof {
                    lemma_contents_keys(self.entries@, id@);
                }
                Err(ApiError::NotFound(String::from_str("LaTeX file not found")))
            },
        }
    }
}

/// An identifier is in the denoted map exactly when some entry carries it.
proof fn lemma_contents_keys(entries: Seq<(String, String)>, id: Seq<char>)
    ensures
        contents_of(entries).contains_key(id) <==> exists|i: int|
            0 <= i < entries.len() && entries[i].0@ == id,
    decreases entries.len(),
{
    if entries.len() > 0 {
        lemma_contents_keys(entries.drop_last(), id);
        if contents_of(entries).contains_key(id) && entries.last().0@ != id {
            let i = choose|i: int| 0 <= i < entries.len() - 1 && entries.drop_last()[i].0@ == id;
            assert(entries[i].0@ == id);
        }
        if exists|i: int| 0 <= i < entries.len() && entries[i].0@ == id {
            let i = choose|i: int| 0 <= i < entries.len() && entries[i].0@ == id;
            if i < entries.len() - 1 {
                assert(entries.drop_last()[i].0@ == id);
            }
        }
    }
}

/// Under unique identifiers, the entry at `position` gives the denoted
/// map's value for its identifier.
proof fn lemma_contents_at(entries: Seq<(String, String)>, position: int)
    requires
        0 <= position < entries.len(),
        forall|i: int, j: int| 0 <= i < j < entries.len() ==> entries[i].0@ != entries[j].0@,
    ensures
        contents_of(entries).contains_key(entries[position].0@),
        contents_of(entries)[entries[position].0@] == entries[position].1@,
    decreases entries.len(),
{
    if position == entries.len() - 1 {
    } else {
        lemma_contents_at(entries.drop_last(), position);
        assert(entries.drop_last()[position] == entries[position]);
        assert(entries[position].0@ != entries.last().0@);
    }
}

/// Under unique identifiers, replacing the entry at `position` with a new
/// text for the same identifier turns the denoted map into the old map
/// with that identifier rebound.
proof fn lemma_contents_update(
    entries: Seq<(String, String)>,
    position: int,
    replacement: (String, String),
)
    requires
        0 <= position < entries.len(),
        entries[position].0@ == replacement.0@,
        forall|i: int, j: int| 0 <= i < j < entries.len() ==> entries[i].0@ != entries[j].0@,
    ensures
        contents_of(entries.update(position, replacement)) == contents_of(entries).insert(
            replacement.0@,
            replacement.1@,
        ),
    decreases entries.len(),
{
    let id = replacement.0@;
    let text = replacement.1@;
    let updated = entries.update(position, replacement);
    if position == entries.len() - 1 {
        assert(updated.drop_last() =~= entries.drop_last());
        assert(contents_of(updated) == contents_of(entries.drop_last()).insert(id, text));
        assert(contents_of(entries.drop_last()).insert(id, text) =~= contents_of(entries).insert(
            id,
            text,
        ));
    } else {
        lemma_contents_update(entries.drop_last(), position, replacement);
        assert(updated.drop_last() =~= entries.drop_last().update(position, replacement));
        assert(updated.last() == entries.last());
        assert(contents_of(updated) == contents_of(entries.drop_last()).insert(id, text).insert(
            entries.last().0@,
            entries.last().1@,
        ));
        assert(entries.last().0@ != id);
        assert(contents_of(entries.drop_last()).insert(id, text).insert(
            entries.last().0@,
            entries.last().1@,
        ) =~= contents_of(entries).insert(id, text));
    }
}

/// Writing an artifact and reading it back under the same identifier
/// yields exactly the written text: after `put(id, text)`, the store's
/// contents bind `id` to `text`, whatever they held before.
pub proof fn lemma_put_get_round_trip(
    before: Map<Seq<char>, Seq<char>>,
    id: Seq<char>,
    text: Seq<char>,
)
    ensures
        before.insert(id, text).contains_key(id),
        before.insert(id, text)[id] == text,
{
}

} // verus!
