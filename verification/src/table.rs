//! One table of the store: rows in ascending order of their ids, and the
//! operations that every entity shares.

use vstd::prelude::*;

verus! {

/// What a row type tells its table: its id, which lookup keys it answers to,
/// how it is made from the fields of an insert, and how a partial update
/// changes it.
pub trait Record: View + Sized {
    /// The lookup key: exactly one of the entity's alternate keys.
    type Key;

    /// The fields that an insert supplies; the id is not among them.
    type New;

    /// A partial update: each field is either given or left alone.
    type Patch;

    /// The row's id.
    spec fn id_of(row: Self::V) -> i32;

    /// Whether the key selects the row.
    spec fn selects(key: Self::Key, row: Self::V) -> bool;

    /// The row that an insert of `new` creates under `id`.
    spec fn created(id: i32, new: Self::New) -> Self::V;

    /// The row after a partial update.
    spec fn patched(row: Self::V, patch: Self::Patch) -> Self::V;

    /// The text that no two rows of the table may share, if the entity has one.
    spec fn unique_of(row: Self::V) -> Option<Seq<char>>;

    /// The id of another table's row that the row refers to in its
    /// reference number `slot`.
    spec fn link_of(row: Self::V, slot: int) -> i32;

    /// A created row carries the id it was given.
    proof fn created_id(id: i32, new: Self::New)
        ensures
            Self::id_of(Self::created(id, new)) == id,
    ;

    /// A partial update never changes the id.
    proof fn patched_id(row: Self::V, patch: Self::Patch)
        ensures
            Self::id_of(Self::patched(row, patch)) == Self::id_of(row),
    ;

    fn id(&self) -> (id: i32)
        ensures
            id == Self::id_of(self@),
    ;

    fn matches(&self, key: &Self::Key) -> (hit: bool)
        ensures
            hit == Self::selects(*key, self@),
    ;

    fn holds_unique(&self, text: &String) -> (hit: bool)
        ensures
            hit == (Self::unique_of(self@) == Some(text@)),
    ;

    fn link(&self, slot: u8) -> (id: i32)
        ensures
            id == Self::link_of(self@, slot as int),
    ;

    /// A copy that is equal to the row in every field.
    fn copy(&self) -> (row: Self)
        ensures
            row@ == self@,
    ;

    fn create(id: i32, new: Self::New) -> (row: Self)
        ensures
            row@ == Self::created(id, new),
    ;

    fn patch(&self, patch: &Self::Patch) -> (row: Self)
        ensures
            row@ == Self::patched(self@, *patch),
    ;
}

/// The rows as the contracts see them: each by its view.
pub open spec fn views<R: Record>(rows: Seq<R>) -> Seq<R::V> {
    rows.map_values(|r: R| r@)
}

/// The rows that a key selects, in table order.
pub open spec fn select_spec<R: Record>(rows: Seq<R::V>, key: R::Key) -> Seq<R::V> {
    rows.filter(|row: R::V| R::selects(key, row))
}

/// The rows that a key does not select, in table order.
pub open spec fn reject_spec<R: Record>(rows: Seq<R::V>, key: R::Key) -> Seq<R::V> {
    rows.filter(|row: R::V| !R::selects(key, row))
}

/// The rows after a partial update of the row with the given id.
pub open spec fn update_spec<R: Record>(rows: Seq<R::V>, id: i32, patch: R::Patch) -> Seq<R::V> {
    rows.map_values(
        |row: R::V|
            if R::id_of(row) == id {
                R::patched(row, patch)
            } else {
                row
            },
    )
}

/// Whether some row has the given id.
pub open spec fn has_id<R: Record>(rows: Seq<R::V>, id: i32) -> bool {
    exists|i: int| 0 <= i < rows.len() && R::id_of(#[trigger] rows[i]) == id
}

/// The row with the given id, if there is one.
pub open spec fn find_spec<R: Record>(rows: Seq<R::V>, id: i32) -> Option<R::V> {
    if has_id::<R>(rows, id) {
        Some(rows[choose|i: int| 0 <= i < rows.len() && R::id_of(#[trigger] rows[i]) == id])
    } else {
        None
    }
}

/// The first element of a sequence, if it has one.
pub open spec fn first_spec<V>(rows: Seq<V>) -> Option<V> {
    if rows.len() > 0 {
        Some(rows[0])
    } else {
        None
    }
}

/// Ids are positive, at most `last_id`, and strictly ascending.
pub open spec fn ids_ascend<R: Record>(rows: Seq<R::V>, last_id: i32) -> bool {
    &&& forall|i: int| 0 <= i < rows.len() ==> 1 <= R::id_of(#[trigger] rows[i]) <= last_id
    &&& forall|i: int, j: int|
        0 <= i < j < rows.len() ==> R::id_of(#[trigger] rows[i]) < R::id_of(#[trigger] rows[j])
}

pub proof fn lemma_select_push<R: Record>(rows: Seq<R::V>, row: R::V, key: R::Key)
    ensures
        select_spec::<R>(rows.push(row), key) == if R::selects(key, row) {
            select_spec::<R>(rows, key).push(row)
        } else {
            select_spec::<R>(rows, key)
        },
{
    reveal(Seq::filter);
    assert(rows.push(row).drop_last() =~= rows);
}

pub proof fn lemma_reject_push<R: Record>(rows: Seq<R::V>, row: R::V, key: R::Key)
    ensures
        reject_spec::<R>(rows.push(row), key) == if R::selects(key, row) {
            reject_spec::<R>(rows, key)
        } else {
            reject_spec::<R>(rows, key).push(row)
        },
{
    reveal(Seq::filter);
    assert(rows.push(row).drop_last() =~= rows);
}

/// A table: its rows and the last id that it has given out.
pub struct Table<R: Record> {
    pub rows: Vec<R>,
    pub last_id: i32,
}

impl<R: Record> View for Table<R> {
    type V = Seq<R::V>;

    open spec fn view(&self) -> Seq<R::V> {
        views(self.rows@)
    }
}

impl<R: Record> Table<R> {
    /// The table's invariant.
    pub open spec fn wf(&self) -> bool {
        &&& 0 <= self.last_id
        &&& ids_ascend::<R>(self@, self.last_id)
    }

    /// An empty table that has given out no id yet.
    pub fn new() -> (table: Self)
        ensures
            table.wf(),
            table@ == Seq::<R::V>::empty(),
            table.last_id == 0,
    {
        let table = Table { rows: Vec::new(), last_id: 0 };
        proof {
            assert(table@ =~= Seq::<R::V>::empty());
        }
        table
    }

    /// Every row, in ascending order of id.
    pub fn all(&self) -> (found: Vec<R>)
        ensures
            views(found@) == self@,
    {
        let mut found: Vec<R> = Vec::new();
        let mut i: usize = 0;
        proof {
            assert(views(found@) =~= self@.take(0));
        }
        while i < self.rows.len()
            invariant
                0 <= i <= self.rows@.len(),
                views(found@) == self@.take(i as int),
            decreases self.rows@.len() - i,
        {
            let ghost before = found@;
            found.push(self.rows[i].copy());
            proof {
                assert(views(found@) =~= views(before).push(self.rows@[i as int]@));
                assert(self@.take(i + 1) =~= self@.take(i as int).push(self.rows@[i as int]@));
            }
            i += 1;
        }
        proof {
            assert(self@.take(i as int) =~= self@);
        }
        found
    }

    /// The rows that the key selects, in ascending order of id.
    pub fn select(&self, key: &R::Key) -> (found: Vec<R>)
        ensures
            views(found@) == select_spec::<R>(self@, *key),
    {
        let mut found: Vec<R> = Vec::new();
        let mut i: usize = 0;
        proof {
            reveal(Seq::filter);
            assert(self@.take(0) =~= Seq::<R::V>::empty());
            assert(views(found@) =~= Seq::<R::V>::empty());
        }
        while i < self.rows.len()
            invariant
                0 <= i <= self.rows@.len(),
                views(found@) == select_spec::<R>(self@.take(i as int), *key),
            decreases self.rows@.len() - i,
        {
            proof {
                assert(self@.take(i + 1) =~= self@.take(i as int).push(self.rows@[i as int]@));
                lemma_select_push::<R>(self@.take(i as int), self.rows@[i as int]@, *key);
            }
            if self.rows[i].matches(key) {
                let ghost before = found@;
                found.push(self.rows[i].copy());
                proof {
                    assert(views(found@) =~= views(before).push(self.rows@[i as int]@));
                }
            }
            i += 1;
        }
        proof {
            assert(self@.take(i as int) =~= self@);
        }
        found
    }

    /// The first row that the key selects, if it selects any.
    pub fn first(&self, key: &R::Key) -> (found: Option<R>)
        ensures
            match found {
                Some(row) => first_spec(select_spec::<R>(self@, *key)) == Some(row@),
                None => first_spec(select_spec::<R>(self@, *key)) is None,
            },
    {
        let mut i: usize = 0;
        proof {
            reveal(Seq::filter);
            assert(self@.take(0) =~= Seq::<R::V>::empty());
        }
        while i < self.rows.len()
            invariant
                0 <= i <= self.rows@.len(),
                select_spec::<R>(self@.take(i as int), *key).len() == 0,
            decreases self.rows@.len() - i,
        {
            proof {
                assert(self@.take(i + 1) =~= self@.take(i as int).push(self.rows@[i as int]@));
                lemma_select_push::<R>(self@.take(i as int), self.rows@[i as int]@, *key);
            }
            if self.rows[i].matches(key) {
                proof {
                    let head = self@.take(i + 1);
                    let rest = self@.skip(i + 1);
                    assert(head + rest =~= self@);
                    Seq::filter_distributes_over_add(head, rest, |row: R::V| R::selects(*key, row));
                }
                return Some(self.rows[i].copy());
            }
            i += 1;
        }
        proof {
            assert(self@.take(i as int) =~= self@);
        }
        None
    }

    /// Whether the key selects any row.
    pub fn any(&self, key: &R::Key) -> (hit: bool)
        ensures
            hit == (select_spec::<R>(self@, *key).len() > 0),
    {
        self.first(key).is_some()
    }

    /// Whether some row has the given id.
    pub fn contains_id(&self, id: i32) -> (hit: bool)
        ensures
            hit == has_id::<R>(self@, id),
    {
        let mut i: usize = 0;
        while i < self.rows.len()
            invariant
                0 <= i <= self.rows@.len(),
                forall|j: int| 0 <= j < i ==> R::id_of(#[trigger] self@[j]) != id,
            decreases self.rows@.len() - i,
        {
            if self.rows[i].id() == id {
                proof {
                    assert(R::id_of(self@[i as int]) == id);
                }
                return true;
            }
            i += 1;
        }
        false
    }

    /// Adds a row made from `new` under the next id and returns it. When the
    /// ids are used up, nothing changes and nothing is returned.
    pub fn insert(&mut self, new: R::New) -> (made: Option<R>)
        requires
            old(self).wf(),
        ensures
            final(self).wf(),
            old(self).last_id < i32::MAX ==> {
                &&& made is Some
                &&& made.unwrap()@ == R::created((old(self).last_id + 1) as i32, new)
                &&& final(self)@ == old(self)@.push(made.unwrap()@)
                &&& final(self).last_id == old(self).last_id + 1
            },
            old(self).last_id == i32::MAX ==> made is None && *final(self) == *old(self),
    {
        if self.last_id == i32::MAX {
            return None;
        }
        let id: i32 = self.last_id + 1;
        let row = R::create(id, new);
        proof {
            R::created_id(id, new);
        }
        let made = row.copy();
        self.rows.push(row);
        self.last_id = id;
        proof {
            assert(self@ =~= old(self)@.push(made@));
        }
        Some(made)
    }

    /// Applies a partial update to the row with the given id and returns the
    /// row as it then stands. Without such a row, nothing changes.
    pub fn update(&mut self, id: i32, patch: &R::Patch) -> (changed: Option<R>)
        requires
            old(self).wf(),
        ensures
            final(self).wf(),
            final(self).last_id == old(self).last_id,
            match find_spec::<R>(old(self)@, id) {
                Some(row) => changed is Some && changed.unwrap()@ == R::patched(row, *patch),
                None => changed is None,
            },
            has_id::<R>(old(self)@, id) ==> final(self)@ == update_spec::<R>(
                old(self)@,
                id,
                *patch,
            ),
            !has_id::<R>(old(self)@, id) ==> *final(self) == *old(self),
    {
        let mut i: usize = 0;
        while i < self.rows.len()
            invariant
                0 <= i <= self.rows@.len(),
                *self == *old(self),
                self.wf(),
                forall|j: int| 0 <= j < i ==> R::id_of(#[trigger] self@[j]) != id,
            decreases self.rows@.len() - i,
        {
            if self.rows[i].id() == id {
                let row = self.rows[i].patch(patch);
                let changed = row.copy();
                proof {
                    R::patched_id(self@[i as int], *patch);
                    assert(R::id_of(self@[i as int]) == id);
                }
                self.rows.set(i, row);
                proof {
                    assert(self@ =~= update_spec::<R>(old(self)@, id, *patch));
                }
                return Some(changed);
            }
            i += 1;
        }
        None
    }

    /// Removes the rows that the key selects and returns how many they were.
    pub fn delete(&mut self, key: &R::Key) -> (removed: usize)
        requires
            old(self).wf(),
        ensures
            final(self).wf(),
            final(self).last_id == old(self).last_id,
            final(self)@ == reject_spec::<R>(old(self)@, *key),
            removed == select_spec::<R>(old(self)@, *key).len(),
    {
        let mut kept: Vec<R> = Vec::new();
        let mut removed: usize = 0;
        let mut i: usize = 0;
        proof {
            reveal(Seq::filter);
            assert(self@.take(0) =~= Seq::<R::V>::empty());
            assert(views(kept@) =~= Seq::<R::V>::empty());
        }
        while i < self.rows.len()
            invariant
                0 <= i <= self.rows@.len(),
                *self == *old(self),
                self.wf(),
                views(kept@) == reject_spec::<R>(self@.take(i as int), *key),
                removed == select_spec::<R>(self@.take(i as int), *key).len(),
                removed <= i,
                ids_ascend::<R>(views(kept@), self.last_id),
                forall|k: int, j: int|
                    0 <= k < kept@.len() && i <= j < self.rows@.len() ==> R::id_of(
                        #[trigger] views(kept@)[k],
                    ) < R::id_of(#[trigger] self@[j]),
            decreases self.rows@.len() - i,
        {
            proof {
                assert(self@.take(i + 1) =~= self@.take(i as int).push(self.rows@[i as int]@));
                lemma_select_push::<R>(self@.take(i as int), self.rows@[i as int]@, *key);
                lemma_reject_push::<R>(self@.take(i as int), self.rows@[i as int]@, *key);
            }
            if self.rows[i].matches(key) {
                removed += 1;
            } else {
                let ghost before = kept@;
                kept.push(self.rows[i].copy());
                proof {
                    assert(views(kept@) =~= views(before).push(self@[i as int]));
                }
            }
            i += 1;
        }
        proof {
            assert(self@.take(i as int) =~= self@);
        }
        self.rows = kept;
        removed
    }
}

} // verus!
