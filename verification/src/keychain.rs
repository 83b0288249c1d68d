//! A key store that lives in memory.
//!
//! It keeps what the key store of a device keeps: key material under a name,
//! with at most one item to a name.

use crate::encoding::str_eq;
use crate::error::{Error, ErrorView};
use vstd::prelude::*;
use vstd::string::*;

verus! {

/// Key material under its name.
pub struct KeyEncryptionKey {
    pub name: String,
    pub key_material: Vec<u8>,
}

/// The name under which a key is kept once it is deleted.
pub open spec fn soft_deleted_name(name: Seq<char>) -> Seq<char> {
    "soft-deleted-"@ + name
}

/// The name under which a key is kept once it is deleted: the key stays in the
/// store, out of the way of its old name.
pub fn soft_delete_rename(name: &str) -> (new_name: String)
    ensures
        new_name@ == soft_deleted_name(name@),
{
    let mut new_name = "soft-deleted-".to_owned();
    new_name.append(name);
    new_name
}

pub open spec fn key_not_found_error(name: Seq<char>) -> ErrorView {
    ErrorView::Fatal { error: "Key '"@ + name + "' not found"@ }
}

pub open spec fn key_exists_error() -> ErrorView {
    ErrorView::Fatal { error: "A keychain item by this name already exists"@ }
}

/// Whether no name stands twice among the items.
pub open spec fn names_are_unique(items: Seq<KeyEncryptionKey>) -> bool {
    forall|i: int, j: int|
        0 <= i < items.len() && 0 <= j < items.len() && (#[trigger] items[i]).name@ == (
        #[trigger] items[j]).name@ ==> i == j
}

/// Whether an item of this name is among the items.
pub open spec fn holds_name(items: Seq<KeyEncryptionKey>, name: Seq<char>) -> bool {
    exists|i: int| 0 <= i < items.len() && (#[trigger] items[i]).name@ == name
}

/// The place of the item of a name.
pub open spec fn place_of(items: Seq<KeyEncryptionKey>, name: Seq<char>) -> int {
    choose|i: int| 0 <= i < items.len() && (#[trigger] items[i]).name@ == name
}

/// The items as a map from names to key material.
pub open spec fn items_map(items: Seq<KeyEncryptionKey>) -> Map<Seq<char>, Seq<u8>> {
    Map::new(
        |name: Seq<char>| holds_name(items, name),
        |name: Seq<char>| items[place_of(items, name)].key_material@,
    )
}

/// In-memory keychain for testing.
pub struct InMemoryKeychain {
    data: Vec<KeyEncryptionKey>,
}

impl View for InMemoryKeychain {
    type V = Map<Seq<char>, Seq<u8>>;

    /// What the store holds: key material by name.
    closed spec fn view(&self) -> Map<Seq<char>, Seq<u8>> {
        items_map(self.data@)
    }
}

impl InMemoryKeychain {
    /// No name stands twice in the store. Every store that [`InMemoryKeychain::new`]
    /// made is so, whatever was done to it since.
    pub closed spec fn wf(&self) -> bool {
        names_are_unique(self.data@)
    }

    /// An empty store.
    pub fn new() -> (keychain: Self)
        ensures
            keychain.wf(),
            keychain@ == Map::<Seq<char>, Seq<u8>>::empty(),
            keychain.count() == 0,
    {
        let keychain = InMemoryKeychain { data: Vec::new() };
        assert(keychain@ =~= Map::<Seq<char>, Seq<u8>>::empty());
        keychain
    }

    fn find(&self, name: &str) -> (place: Option<usize>)
        requires
            self.wf(),
        ensures
            match place {
                Some(at) => at < self.data@.len() && self.data@[at as int].name@ == name@
                    && self@.dom().contains(name@) && self@[name@]
                    == self.data@[at as int].key_material@,
                None => !self@.dom().contains(name@) && !holds_name(self.data@, name@),
            },
    {
        let mut i: usize = 0;
        while i < self.data.len()
            invariant
                self.wf(),
                i <= self.data@.len(),
                forall|j: int| 0 <= j < i ==> (#[trigger] self.data@[j]).name@ != name@,
            decreases self.data@.len() - i,
        {
            if str_eq(self.data[i].name.as_str(), name) {
                assert(holds_name(self.data@, name@));
                assert(self.data@[place_of(self.data@, name@)].name@ == self.data@[i as int].name@);
                assert(place_of(self.data@, name@) == i);
                return Some(i);
            }
            i = i + 1;
        }
        None
    }

    /// The key of a name. It is an error to ask for a key that is not there.
    pub fn get(&self, name: &str) -> (key: Result<KeyEncryptionKey, Error>)
        requires
            self.wf(),
        ensures
            match key {
                Ok(found) => self@.dom().contains(name@) && found.name@ == name@ && found.key_material@
                    == self@[name@],
                Err(error) => !self@.dom().contains(name@) && error@ == key_not_found_error(name@),
            },
    {
        match self.find(name) {
            Some(at) => Ok(
                KeyEncryptionKey {
                    name: name.to_owned(),
                    key_material: self.data[at].key_material.clone(),
                },
            ),
            None => {
                let mut error = "Key '".to_owned();
                error.append(name);
                error.append("' not found");
                Err(Error::Fatal { error })
            },
        }
    }

    /// Puts a key into the store. A name that is taken stays with the key that
    /// has it, and the store stays as it is.
    pub fn put_local_unlocked(&mut self, key: KeyEncryptionKey) -> (put: Result<(), Error>)
        requires
            old(self).wf(),
        ensures
            final(self).wf(),
            match put {
                Ok(_) => !old(self)@.dom().contains(key.name@) && final(self)@ == old(self)@.insert(
                    key.name@,
                    key.key_material@,
                ) && final(self).count() == old(self).count() + 1,
                Err(error) => old(self)@.dom().contains(key.name@) && final(self)@ == old(self)@
                    && final(self).count() == old(self).count() && error@ == key_exists_error(),
            },
    {
        match self.find(key.name.as_str()) {
            Some(_) => Err(Error::fatal("A keychain item by this name already exists")),
            None => {
                let ghost before = self.data@;
                let ghost name = key.name@;
                let ghost material = key.key_material@;
                self.data.push(key);
                proof {
                    let after = self.data@;
                    assert(after.len() == before.len() + 1);
                    assert(after[before.len() as int].name@ == name);
                    assert(names_are_unique(after)) by {
                        assert forall|i: int, j: int|
                            0 <= i < after.len() && 0 <= j < after.len() && (#[trigger] after[i]).name@ == (
                            #[trigger] after[j]).name@ implies i == j by {
                            if i < before.len() {
                                assert(after[i] == before[i]);
                            }
                            if j < before.len() {
                                assert(after[j] == before[j]);
                            }
                        }
                    }
                    lemma_items_map_push(before, after, name, material);
                }
                Ok(())
            },
        }
    }

    /// Deletes a key softly: the key stays in the store under the name that
    /// [`soft_delete_rename`] gives it, and its old name is free again. Where
    /// the key is not there, or the new name is taken, this is an error and the
    /// store stays as it is.
    pub fn soft_delete(&mut self, name: &str) -> (deleted: Result<(), Error>)
        requires
            old(self).wf(),
        ensures
            final(self).wf(),
            match deleted {
                Ok(_) => old(self)@.dom().contains(name@) && !old(self)@.dom().contains(
                    soft_deleted_name(name@),
                ) && final(self)@ == old(self)@.insert(soft_deleted_name(name@), old(self)@[name@]).remove(
                    name@,
                ) && final(self).count() == old(self).count(),
                Err(error) => final(self)@ == old(self)@ && final(self).count() == old(self).count()
                    && if old(self)@.dom().contains(name@) {
                    old(self)@.dom().contains(soft_deleted_name(name@)) && error@ == key_exists_error()
                } else {
                    error@ == key_not_found_error(name@)
                },
            },
    {
        let key = self.get(name)?;
        let new_name = soft_delete_rename(name);
        let key = KeyEncryptionKey { name: new_name, key_material: key.key_material };
        self.put_local_unlocked(key)?;
        match self.find(name) {
            Some(at) => {
                let ghost before = self.data@;
                let _ = self.data.remove(at);
                proof {
                    lemma_items_map_remove(before, self.data@, at as int);
                }
            },
            None => {},
        }
        Ok(())
    }

    /// How many keys the store holds.
    pub fn len(&self) -> (count: usize)
        ensures
            count == self.count(),
    {
        self.data.len()
    }

    /// How many items the store holds. A new store holds none; a put adds one, and
    /// a soft delete keeps the number.
    pub closed spec fn count(&self) -> nat {
        self.data@.len()
    }
}

/// Pushing an item of a new name puts it into the map.
pub proof fn lemma_items_map_push(
    before: Seq<KeyEncryptionKey>,
    after: Seq<KeyEncryptionKey>,
    name: Seq<char>,
    material: Seq<u8>,
)
    requires
        names_are_unique(after),
        after.len() == before.len() + 1,
        forall|i: int| 0 <= i < before.len() ==> after[i] == before[i],
        after[before.len() as int].name@ == name,
        after[before.len() as int].key_material@ == material,
    ensures
        items_map(after) == items_map(before).insert(name, material),
{
    let left = items_map(after);
    let right = items_map(before).insert(name, material);
    assert forall|key: Seq<char>| left.dom().contains(key) <==> right.dom().contains(key) by {
        if holds_name(after, key) {
            let i = place_of(after, key);
            if i < before.len() {
                assert(before[i].name@ == key);
            }
        }
        if holds_name(before, key) {
            let i = place_of(before, key);
            assert(after[i].name@ == key);
        }
        if key == name {
            assert(after[before.len() as int].name@ == key);
        }
    }
    assert forall|key: Seq<char>| left.dom().contains(key) implies left[key] == right[key] by {
        let i = place_of(after, key);
        if key == name {
            assert(after[before.len() as int].name@ == key);
            assert(i == before.len());
        } else {
            assert(i < before.len());
            assert(before[i].name@ == key);
            let j = place_of(before, key);
            assert(after[j].name@ == key);
            assert(i == j);
        }
    }
    assert(left =~= right);
}

/// Taking an item out takes its name out of the map.
pub proof fn lemma_items_map_remove(before: Seq<KeyEncryptionKey>, after: Seq<KeyEncryptionKey>, at: int)
    requires
        names_are_unique(before),
        0 <= at < before.len(),
        after == before.remove(at),
    ensures
        names_are_unique(after),
        items_map(after) == items_map(before).remove(before[at].name@),
{
    let name = before[at].name@;
    let shift = |i: int| if i < at { i } else { i + 1 };
    assert forall|i: int| 0 <= i < after.len() implies after[i] == before[shift(i)] by {}
    assert forall|i: int, j: int|
        0 <= i < after.len() && 0 <= j < after.len() && (#[trigger] after[i]).name@ == (
        #[trigger] after[j]).name@ implies i == j by {
        assert(before[shift(i)].name@ == before[shift(j)].name@);
    }
    let left = items_map(after);
    let right = items_map(before).remove(name);
    assert forall|key: Seq<char>| left.dom().contains(key) <==> right.dom().contains(key) by {
        if holds_name(after, key) {
            let i = place_of(after, key);
            assert(before[shift(i)].name@ == key);
            assert(shift(i) != at);
        }
        if holds_name(before, key) && key != name {
            let i = place_of(before, key);
            let back = if i < at { i } else { i - 1 };
            assert(after[back] == before[i]);
            assert(after[back].name@ == key);
        }
    }
    assert forall|key: Seq<char>| left.dom().contains(key) implies left[key] == right[key] by {
        let i = place_of(after, key);
        assert(before[shift(i)].name@ == key);
        let j = place_of(before, key);
        assert(shift(i) == j);
    }
    assert(left =~= right);
}

} // verus!
