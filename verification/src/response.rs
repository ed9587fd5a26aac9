//! From the store's outcome to what a caller gets: rows are shown as
//! messages, failures become statuses, and each of the five operations has a
//! statement of what it returns and what it leaves behind.

use vstd::prelude::*;
use crate::error::{answers, rejects, store_err_to_grpc_error, Status, StoreError};
use crate::store::{refusal_kind, refusal_message, refuse, Entity, Refusal, Store};
use crate::table::{find_spec, first_spec, reject_spec, select_spec, update_spec, views, Record};

verus! {

/// A message that can show a row of an entity.
pub trait Shows<E: Record>: Sized {
    /// Whether the message shows the row: each of its fields holds what the
    /// row holds.
    spec fn shows(&self, row: E::V) -> bool;

    /// The message that shows a row.
    fn of(row: &E) -> (shown: Self)
        ensures
            shown.shows(row@),
    ;
}

/// Whether the messages show the rows, one for one and in order.
pub open spec fn show_all<E: Record, D: Shows<E>>(shown: Seq<D>, rows: Seq<E::V>) -> bool {
    &&& shown.len() == rows.len()
    &&& forall|i: int| 0 <= i < shown.len() ==> (#[trigger] shown[i]).shows(rows[i])
}

/// Whether the status is what a caller sees of a refusal by the store.
pub open spec fn refused(status: Status, refusal: Refusal) -> bool {
    answers(status, refusal_kind(refusal), refusal_message(refusal))
}

/// The status with which a call failed, if it did.
pub open spec fn failure_of<T>(out: Result<T, Status>) -> Option<Status> {
    match out {
        Ok(_) => None,
        Err(status) => Some(status),
    }
}

/// What a list request returns: every row of the table, in ascending order
/// of id; an empty list for an empty table, never a failure.
pub open spec fn listed<E: Entity, D: Shows<E>>(store: Store, out: Result<Vec<D>, Status>) -> bool {
    out matches Ok(shown) && show_all::<E, D>(shown@, E::table_of(store)@)
}

/// The answer to a lookup that returns a list: the rows shown, in order. A
/// lookup by id names one row, so where it finds none the answer is "not
/// found"; a lookup by another key may find no row and answers with an
/// empty list.
pub open spec fn answers_rows<E: Record, D: Shows<E>>(
    by_id: bool,
    rows: Seq<E::V>,
    out: Result<Vec<D>, Status>,
) -> bool {
    if by_id && rows.len() == 0 {
        out matches Err(status) && refused(status, Refusal::Missing)
    } else {
        out matches Ok(shown) && show_all::<E, D>(shown@, rows)
    }
}

/// What a lookup returns where the answer is a list: the answer for the rows
/// that the key selects, in ascending order of id. `by_id` says whether the
/// key names a row by its id.
pub open spec fn got_listed<E: Entity, D: Shows<E>>(
    store: Store,
    key: E::Key,
    by_id: bool,
    out: Result<Vec<D>, Status>,
) -> bool {
    answers_rows::<E, D>(by_id, select_spec::<E>(E::table_of(store)@, key), out)
}

/// What a lookup returns where one row is expected: the first row that the
/// key selects, or "not found" where it selects none.
pub open spec fn got_one<E: Entity, D: Shows<E>>(
    store: Store,
    key: E::Key,
    out: Result<D, Status>,
) -> bool {
    match first_spec(select_spec::<E>(E::table_of(store)@, key)) {
        Some(row) => out matches Ok(shown) && shown.shows(row),
        None => out matches Err(status) && refused(status, Refusal::Missing),
    }
}

/// What an add returns and leaves behind: unless the store refuses, the new
/// row stands last in its table under the next id, the answer shows it, and
/// no other table has changed. A refusal changes nothing.
pub open spec fn added<E: Entity, D: Shows<E>>(
    before: Store,
    new: E::New,
    after: Store,
    out: Result<D, Status>,
) -> bool {
    match E::insert_refusal(before, new) {
        None => {
            let row = E::created((E::table_of(before).last_id + 1) as i32, new);
            &&& out matches Ok(shown) && shown.shows(row)
            &&& E::table_of(after)@ == E::table_of(before)@.push(row)
            &&& E::table_of(after).last_id == E::table_of(before).last_id + 1
            &&& E::others_same(before, after)
        },
        Some(refusal) => {
            &&& out matches Err(status) && refused(status, refusal)
            &&& after == before
        },
    }
}

/// What a partial update returns and leaves behind: an update that names no
/// field is rejected before the store is touched; otherwise, unless the
/// store refuses, the row with the id has changed in the fields that the
/// update names, the answer shows it as it then stands, and no other row
/// and no other table has changed. A rejection or refusal changes nothing.
pub open spec fn updated<E: Entity, D: Shows<E>>(
    before: Store,
    id: i32,
    patch: E::Patch,
    after: Store,
    out: Result<D, Status>,
) -> bool {
    if E::names_nothing(patch) {
        &&& out matches Err(status) && rejects(status, E::no_change_text())
        &&& after == before
    } else {
        match E::update_refusal(before, id, patch) {
            None => {
                &&& find_spec::<E>(E::table_of(before)@, id) matches Some(row) && out matches Ok(
                    shown,
                ) && shown.shows(E::patched(row, patch))
                &&& E::table_of(after)@ == update_spec::<E>(E::table_of(before)@, id, patch)
                &&& E::table_of(after).last_id == E::table_of(before).last_id
                &&& E::others_same(before, after)
            },
            Some(refusal) => {
                &&& out matches Err(status) && refused(status, refusal)
                &&& after == before
            },
        }
    }
}

/// What a delete leaves behind: unless the store refuses, the rows that the
/// key selects are gone and no other row and no other table has changed. A
/// refusal changes nothing and is reported in `failure`.
pub open spec fn removed<E: Entity>(
    before: Store,
    key: E::Key,
    after: Store,
    failure: Option<Status>,
) -> bool {
    match E::delete_refusal(before, key) {
        None => {
            &&& failure is None
            &&& E::table_of(after)@ == reject_spec::<E>(E::table_of(before)@, key)
            &&& E::table_of(after).last_id == E::table_of(before).last_id
            &&& E::others_same(before, after)
        },
        Some(refusal) => {
            &&& failure matches Some(status) && refused(status, refusal)
            &&& after == before
        },
    }
}

/// What a delete returns and leaves behind: what `removed` says, and the
/// number of rows that the key selected (zero is no failure).
pub open spec fn deleted<E: Entity>(
    before: Store,
    key: E::Key,
    after: Store,
    out: Result<usize, Status>,
) -> bool {
    match out {
        Ok(count) => {
            &&& removed::<E>(before, key, after, None)
            &&& count == select_spec::<E>(E::table_of(before)@, key).len()
        },
        Err(status) => removed::<E>(before, key, after, Some(status)),
    }
}

/// Shows each row as a message.
pub fn show_rows<E: Record, D: Shows<E>>(rows: &Vec<E>) -> (shown: Vec<D>)
    ensures
        show_all::<E, D>(shown@, views(rows@)),
{
    let mut shown: Vec<D> = Vec::new();
    let mut i: usize = 0;
    while i < rows.len()
        invariant
            0 <= i <= rows@.len(),
            shown@.len() == i,
            forall|j: int| 0 <= j < i ==> (#[trigger] shown@[j]).shows(rows@[j]@),
        decreases rows@.len() - i,
    {
        shown.push(D::of(&rows[i]));
        i += 1;
    }
    shown
}

/// The answer to a request for several rows: the rows shown, or the status
/// of the store's failure.
pub fn rows_response<E: Record, D: Shows<E>>(outcome: Result<Vec<E>, StoreError>) -> (out: Result<
    Vec<D>,
    Status,
>)
    ensures
        match outcome {
            Ok(rows) => out matches Ok(shown) && show_all::<E, D>(shown@, views(rows@)),
            Err(error) => out matches Err(status) && answers(status, error.kind, error.message@),
        },
{
    match outcome {
        Ok(rows) => Ok(show_rows(&rows)),
        Err(error) => Err(store_err_to_grpc_error(error)),
    }
}

/// The answer to a lookup that returns a list, from the rows that the key
/// selected: "not found" where a lookup by id selected none, else the rows
/// shown.
pub fn listed_response<E: Record, D: Shows<E>>(by_id: bool, rows: Vec<E>) -> (out: Result<
    Vec<D>,
    Status,
>)
    ensures
        answers_rows::<E, D>(by_id, views(rows@), out),
{
    if by_id && rows.len() == 0 {
        Err(store_err_to_grpc_error(refuse(Refusal::Missing)))
    } else {
        Ok(show_rows(&rows))
    }
}

/// The answer to a request for one row: the row shown, or the status of the
/// store's failure.
pub fn row_response<E: Record, D: Shows<E>>(outcome: Result<E, StoreError>) -> (out: Result<
    D,
    Status,
>)
    ensures
        match outcome {
            Ok(row) => out matches Ok(shown) && shown.shows(row@),
            Err(error) => out matches Err(status) && answers(status, error.kind, error.message@),
        },
{
    match outcome {
        Ok(row) => Ok(D::of(&row)),
        Err(error) => Err(store_err_to_grpc_error(error)),
    }
}

/// The answer to a lookup that expects one row: the row shown, or "not
/// found" where there is none.
pub fn first_response<E: Record, D: Shows<E>>(found: Option<E>) -> (out: Result<D, Status>)
    ensures
        match found {
            Some(row) => out matches Ok(shown) && shown.shows(row@),
            None => out matches Err(status) && refused(status, Refusal::Missing),
        },
{
    match found {
        Some(row) => Ok(D::of(&row)),
        None => Err(store_err_to_grpc_error(refuse(Refusal::Missing))),
    }
}

/// The answer to a delete: the number of rows removed, or the status of the
/// store's failure.
pub fn count_response(outcome: Result<usize, StoreError>) -> (out: Result<usize, Status>)
    ensures
        match outcome {
            Ok(removed) => out == Ok::<usize, Status>(removed),
            Err(error) => out matches Err(status) && answers(status, error.kind, error.message@),
        },
{
    match outcome {
        Ok(removed) => Ok(removed),
        Err(error) => Err(store_err_to_grpc_error(error)),
    }
}

} // verus!
