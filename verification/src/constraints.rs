//! What the store enforces across rows and tables: texts that no two rows of
//! a table may share, and references that must lead to an existing row.

use vstd::prelude::*;
use crate::table::{has_id, reject_spec, update_spec, Record, Table};

verus! {

/// Whether some row holds the text in its unique column.
pub open spec fn holds<R: Record>(rows: Seq<R::V>, text: Seq<char>) -> bool {
    exists|i: int| 0 <= i < rows.len() && R::unique_of(#[trigger] rows[i]) == Some(text)
}

/// Whether a row other than the one with the given id holds the text in its
/// unique column.
pub open spec fn held_by_other<R: Record>(rows: Seq<R::V>, text: Seq<char>, id: i32) -> bool {
    exists|i: int|
        0 <= i < rows.len() && R::unique_of(#[trigger] rows[i]) == Some(text) && R::id_of(rows[i])
            != id
}

/// No two rows share a text in their unique column.
pub open spec fn distinct<R: Record>(rows: Seq<R::V>) -> bool {
    forall|i: int, j: int|
        0 <= i < j < rows.len() && R::unique_of(rows[i]) is Some ==> R::unique_of(
            #[trigger] rows[i],
        ) != R::unique_of(#[trigger] rows[j])
}

/// Whether some row refers to the given id in its reference number `slot`.
pub open spec fn links_to<R: Record>(rows: Seq<R::V>, slot: int, id: i32) -> bool {
    exists|i: int| 0 <= i < rows.len() && R::link_of(#[trigger] rows[i], slot) == id
}

/// Every child refers, in its reference number `slot`, to a parent that exists.
pub open spec fn all_refer<C: Record, P: Record>(
    children: Seq<C::V>,
    slot: int,
    parents: Seq<P::V>,
) -> bool {
    forall|i: int|
        0 <= i < children.len() ==> has_id::<P>(parents, C::link_of(#[trigger] children[i], slot))
}

/// Whether some child refers to a parent that the key selects.
pub open spec fn referenced<C: Record, P: Record>(
    children: Seq<C::V>,
    slot: int,
    parents: Seq<P::V>,
    key: P::Key,
) -> bool {
    exists|p: int|
        0 <= p < parents.len() && P::selects(key, #[trigger] parents[p]) && links_to::<C>(
            children,
            slot,
            P::id_of(parents[p]),
        )
}

/// A row that the key does not select is still there after the delete.
pub proof fn lemma_reject_keeps<R: Record>(rows: Seq<R::V>, key: R::Key, i: int)
    requires
        0 <= i < rows.len(),
        !R::selects(key, rows[i]),
    ensures
        reject_spec::<R>(rows, key).contains(rows[i]),
{
    rows.lemma_filter_contains(|row: R::V| !R::selects(key, row), i);
}

/// Every row left after a delete was there before.
pub proof fn lemma_reject_from<R: Record>(rows: Seq<R::V>, key: R::Key, k: int)
    requires
        0 <= k < reject_spec::<R>(rows, key).len(),
    ensures
        rows.contains(reject_spec::<R>(rows, key)[k]),
        !R::selects(key, reject_spec::<R>(rows, key)[k]),
{
    let kept = reject_spec::<R>(rows, key);
    assert(kept.contains(kept[k]));
    rows.lemma_filter_contains_rev(|row: R::V| !R::selects(key, row), kept[k]);
    rows.lemma_filter_pred(|row: R::V| !R::selects(key, row), k);
}

/// An insert into the parents leaves every reference in place.
pub proof fn lemma_refer_parent_push<C: Record, P: Record>(
    children: Seq<C::V>,
    slot: int,
    parents: Seq<P::V>,
    row: P::V,
)
    requires
        all_refer::<C, P>(children, slot, parents),
    ensures
        all_refer::<C, P>(children, slot, parents.push(row)),
{
    assert forall|i: int| 0 <= i < children.len() implies has_id::<P>(
        parents.push(row),
        C::link_of(#[trigger] children[i], slot),
    ) by {
        let id = C::link_of(children[i], slot);
        let p = choose|p: int| 0 <= p < parents.len() && P::id_of(#[trigger] parents[p]) == id;
        assert(parents.push(row)[p] == parents[p]);
    }
}

/// A partial update of a parent leaves every reference in place.
pub proof fn lemma_refer_parent_update<C: Record, P: Record>(
    children: Seq<C::V>,
    slot: int,
    parents: Seq<P::V>,
    id: i32,
    patch: P::Patch,
)
    requires
        all_refer::<C, P>(children, slot, parents),
    ensures
        all_refer::<C, P>(children, slot, update_spec::<P>(parents, id, patch)),
{
    let after = update_spec::<P>(parents, id, patch);
    assert forall|i: int| 0 <= i < children.len() implies has_id::<P>(
        after,
        C::link_of(#[trigger] children[i], slot),
    ) by {
        let to = C::link_of(children[i], slot);
        let p = choose|p: int| 0 <= p < parents.len() && P::id_of(#[trigger] parents[p]) == to;
        P::patched_id(parents[p], patch);
        assert(P::id_of(after[p]) == to);
    }
}

/// A delete of parents that no child refers to leaves every reference in place.
pub proof fn lemma_refer_parent_reject<C: Record, P: Record>(
    children: Seq<C::V>,
    slot: int,
    parents: Seq<P::V>,
    key: P::Key,
)
    requires
        all_refer::<C, P>(children, slot, parents),
        !referenced::<C, P>(children, slot, parents, key),
    ensures
        all_refer::<C, P>(children, slot, reject_spec::<P>(parents, key)),
{
    let after = reject_spec::<P>(parents, key);
    assert forall|i: int| 0 <= i < children.len() implies has_id::<P>(
        after,
        C::link_of(#[trigger] children[i], slot),
    ) by {
        let to = C::link_of(children[i], slot);
        let p = choose|p: int| 0 <= p < parents.len() && P::id_of(#[trigger] parents[p]) == to;
        assert(links_to::<C>(children, slot, P::id_of(parents[p])));
        assert(!P::selects(key, parents[p]));
        lemma_reject_keeps::<P>(parents, key, p);
        let k = choose|k: int| 0 <= k < after.len() && after[k] == parents[p];
        assert(P::id_of(after[k]) == to);
    }
}

/// An insert of a child whose parent exists leaves every reference in place.
pub proof fn lemma_refer_child_push<C: Record, P: Record>(
    children: Seq<C::V>,
    slot: int,
    parents: Seq<P::V>,
    row: C::V,
)
    requires
        all_refer::<C, P>(children, slot, parents),
        has_id::<P>(parents, C::link_of(row, slot)),
    ensures
        all_refer::<C, P>(children.push(row), slot, parents),
{
    assert forall|i: int| 0 <= i < children.push(row).len() implies has_id::<P>(
        parents,
        C::link_of(#[trigger] children.push(row)[i], slot),
    ) by {
        if i < children.len() {
            assert(children.push(row)[i] == children[i]);
        }
    }
}

/// A partial update of a child whose new parent exists leaves every
/// reference in place.
pub proof fn lemma_refer_child_update<C: Record, P: Record>(
    children: Seq<C::V>,
    slot: int,
    parents: Seq<P::V>,
    id: i32,
    patch: C::Patch,
)
    requires
        all_refer::<C, P>(children, slot, parents),
        forall|i: int|
            0 <= i < children.len() && C::id_of(#[trigger] children[i]) == id ==> has_id::<P>(
                parents,
                C::link_of(C::patched(children[i], patch), slot),
            ),
    ensures
        all_refer::<C, P>(update_spec::<C>(children, id, patch), slot, parents),
{
    let after = update_spec::<C>(children, id, patch);
    assert forall|i: int| 0 <= i < after.len() implies has_id::<P>(
        parents,
        C::link_of(#[trigger] after[i], slot),
    ) by {
        if C::id_of(children[i]) == id {
            assert(after[i] == C::patched(children[i], patch));
        } else {
            assert(after[i] == children[i]);
        }
    }
}

/// A delete of children leaves every reference in place.
pub proof fn lemma_refer_child_reject<C: Record, P: Record>(
    children: Seq<C::V>,
    slot: int,
    parents: Seq<P::V>,
    key: C::Key,
)
    requires
        all_refer::<C, P>(children, slot, parents),
    ensures
        all_refer::<C, P>(reject_spec::<C>(children, key), slot, parents),
{
    let after = reject_spec::<C>(children, key);
    assert forall|k: int| 0 <= k < after.len() implies has_id::<P>(
        parents,
        C::link_of(#[trigger] after[k], slot),
    ) by {
        lemma_reject_from::<C>(children, key, k);
        let i = choose|i: int| 0 <= i < children.len() && children[i] == after[k];
        assert(has_id::<P>(parents, C::link_of(children[i], slot)));
    }
}

/// An insert of a row whose unique text no row holds keeps the texts distinct.
pub proof fn lemma_distinct_push<R: Record>(rows: Seq<R::V>, row: R::V)
    requires
        distinct::<R>(rows),
        R::unique_of(row) matches Some(text) ==> !holds::<R>(rows, text),
    ensures
        distinct::<R>(rows.push(row)),
{
    let after = rows.push(row);
    assert forall|i: int, j: int|
        0 <= i < j < after.len() && R::unique_of(after[i]) is Some implies R::unique_of(
        #[trigger] after[i],
    ) != R::unique_of(#[trigger] after[j]) by {
        assert(after[i] == rows[i]);
        if j < rows.len() {
            assert(after[j] == rows[j]);
        } else {
            if R::unique_of(row) is Some {
                assert(R::unique_of(rows[i]) != R::unique_of(row));
            }
        }
    }
}

/// A delete keeps the texts distinct.
pub proof fn lemma_distinct_reject<R: Record>(rows: Seq<R::V>, key: R::Key)
    requires
        distinct::<R>(rows),
    ensures
        distinct::<R>(reject_spec::<R>(rows, key)),
    decreases rows.len(),
{
    reveal(Seq::filter);
    if rows.len() > 0 {
        let front = rows.drop_last();
        let last = rows.last();
        assert(distinct::<R>(front)) by {
            assert forall|i: int, j: int|
                0 <= i < j < front.len() && R::unique_of(front[i]) is Some implies R::unique_of(
                #[trigger] front[i],
            ) != R::unique_of(#[trigger] front[j]) by {
                assert(front[i] == rows[i] && front[j] == rows[j]);
            }
        }
        lemma_distinct_reject::<R>(front, key);
        let kept = reject_spec::<R>(front, key);
        if !R::selects(key, last) {
            assert(reject_spec::<R>(rows, key) == kept.push(last));
            if R::unique_of(last) is Some {
                let text = R::unique_of(last).unwrap();
                if holds::<R>(kept, text) {
                    let k = choose|k: int|
                        0 <= k < kept.len() && R::unique_of(#[trigger] kept[k]) == Some(text);
                    lemma_reject_from::<R>(front, key, k);
                    let i = choose|i: int| 0 <= i < front.len() && front[i] == kept[k];
                    assert(front[i] == rows[i]);
                    assert(R::unique_of(rows[i]) != R::unique_of(rows[rows.len() - 1]));
                }
            }
            assert forall|i: int, j: int|
                0 <= i < j < kept.push(last).len() && R::unique_of(kept.push(last)[i])
                    is Some implies R::unique_of(#[trigger] kept.push(last)[i]) != R::unique_of(
                #[trigger] kept.push(last)[j],
            ) by {
                assert(kept.push(last)[i] == kept[i]);
                if j < kept.len() {
                    assert(kept.push(last)[j] == kept[j]);
                } else {
                    if R::unique_of(last) is None {
                    } else {
                        assert(!holds::<R>(kept, R::unique_of(last).unwrap()));
                    }
                }
            }
        } else {
            assert(reject_spec::<R>(rows, key) == kept);
        }
    }
}

/// A partial update keeps the texts distinct when no other row holds the
/// text that the updated row then has.
pub proof fn lemma_distinct_update<R: Record>(rows: Seq<R::V>, id: i32, patch: R::Patch)
    requires
        distinct::<R>(rows),
        forall|i: int, j: int|
            0 <= i < j < rows.len() ==> R::id_of(#[trigger] rows[i]) != R::id_of(
                #[trigger] rows[j],
            ),
        forall|i: int|
            0 <= i < rows.len() && R::id_of(#[trigger] rows[i]) == id ==> (R::unique_of(
                R::patched(rows[i], patch),
            ) matches Some(text) ==> !held_by_other::<R>(rows, text, id)),
        forall|i: int|
            0 <= i < rows.len() && R::id_of(#[trigger] rows[i]) == id ==> (R::unique_of(
                R::patched(rows[i], patch),
            ) is None ==> R::unique_of(rows[i]) is None),
    ensures
        distinct::<R>(update_spec::<R>(rows, id, patch)),
{
    let after = update_spec::<R>(rows, id, patch);
    assert forall|i: int, j: int|
        0 <= i < j < after.len() && R::unique_of(after[i]) is Some implies R::unique_of(
        #[trigger] after[i],
    ) != R::unique_of(#[trigger] after[j]) by {
        assert(R::id_of(rows[i]) != R::id_of(rows[j]));
        if R::id_of(rows[i]) == id {
            assert(after[j] == rows[j]);
            let text = R::unique_of(after[i]).unwrap();
            if R::unique_of(rows[j]) == Some(text) {
                assert(held_by_other::<R>(rows, text, id));
            }
        } else if R::id_of(rows[j]) == id {
            assert(after[i] == rows[i]);
            let text = R::unique_of(rows[i]).unwrap();
            if R::unique_of(after[j]) == Some(text) {
                assert(held_by_other::<R>(rows, text, id));
            }
        } else {
            assert(after[i] == rows[i] && after[j] == rows[j]);
        }
    }
}

impl<R: Record> Table<R> {
    /// Whether some row refers to the given id in its reference number `slot`.
    pub fn refers_to(&self, slot: u8, id: i32) -> (hit: bool)
        ensures
            hit == links_to::<R>(self@, slot as int, id),
    {
        let mut i: usize = 0;
        while i < self.rows.len()
            invariant
                0 <= i <= self.rows@.len(),
                forall|j: int| 0 <= j < i ==> R::link_of(#[trigger] self@[j], slot as int) != id,
            decreases self.rows@.len() - i,
        {
            if self.rows[i].link(slot) == id {
                proof {
                    assert(R::link_of(self@[i as int], slot as int) == id);
                }
                return true;
            }
            i += 1;
        }
        false
    }

    /// Whether a row other than the one with the given id holds the text in
    /// its unique column.
    pub fn other_holds(&self, text: &String, id: i32) -> (hit: bool)
        ensures
            hit == held_by_other::<R>(self@, text@, id),
    {
        let mut i: usize = 0;
        while i < self.rows.len()
            invariant
                0 <= i <= self.rows@.len(),
                forall|j: int|
                    0 <= j < i ==> !(R::unique_of(#[trigger] self@[j]) == Some(text@) && R::id_of(
                        self@[j],
                    ) != id),
            decreases self.rows@.len() - i,
        {
            if self.rows[i].holds_unique(text) && self.rows[i].id() != id {
                proof {
                    assert(R::unique_of(self@[i as int]) == Some(text@));
                }
                return true;
            }
            i += 1;
        }
        false
    }

    /// Whether some row holds the text in its unique column.
    pub fn holds(&self, text: &String) -> (hit: bool)
        ensures
            hit == holds::<R>(self@, text@),
    {
        let mut i: usize = 0;
        while i < self.rows.len()
            invariant
                0 <= i <= self.rows@.len(),
                forall|j: int| 0 <= j < i ==> R::unique_of(#[trigger] self@[j]) != Some(text@),
            decreases self.rows@.len() - i,
        {
            if self.rows[i].holds_unique(text) {
                proof {
                    assert(R::unique_of(self@[i as int]) == Some(text@));
                }
                return true;
            }
            i += 1;
        }
        false
    }
}

/// Whether some child refers, in its reference number `slot`, to a parent
/// that the key selects: such parents cannot be deleted.
pub fn restricted<C: Record, P: Record>(
    children: &Table<C>,
    slot: u8,
    parents: &Table<P>,
    key: &P::Key,
) -> (hit: bool)
    ensures
        hit == referenced::<C, P>(children@, slot as int, parents@, *key),
{
    let mut p: usize = 0;
    while p < parents.rows.len()
        invariant
            0 <= p <= parents.rows@.len(),
            forall|q: int|
                0 <= q < p ==> !(P::selects(*key, #[trigger] parents@[q]) && links_to::<C>(
                    children@,
                    slot as int,
                    P::id_of(parents@[q]),
                )),
        decreases parents.rows@.len() - p,
    {
        if parents.rows[p].matches(key) && children.refers_to(slot, parents.rows[p].id()) {
            proof {
                assert(P::selects(*key, parents@[p as int]));
            }
            return true;
        }
        p += 1;
    }
    false
}

} // verus!
