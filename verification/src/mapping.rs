//! From the entities to statements: which table an entity lives in, which
//! column a key names, and which columns an insert or a partial update binds.

use vstd::prelude::*;
use crate::statement::{
    bound, columns_in, delete_text, insert_text, list_text, pairs, select_text, update_text,
    values_in, Assignment, Column, Statement, TableName, Value, ValueView,
};
use crate::error::{rejects, Status};
use crate::store::Entity;

verus! {

/// One column with its value.
pub open spec fn one(column: Column, value: ValueView) -> Seq<(Column, ValueView)> {
    seq![(column, value)]
}

/// A column with its text where the text is given, else nothing.
pub open spec fn given_text(column: Column, text: Option<String>) -> Seq<(Column, ValueView)> {
    match text {
        Some(t) => seq![(column, ValueView::Text(t@))],
        None => Seq::empty(),
    }
}

/// A column with its number where the number is given, else nothing.
pub open spec fn given_int(column: Column, number: Option<i32>) -> Seq<(Column, ValueView)> {
    match number {
        Some(n) => seq![(column, ValueView::Int(n))],
        None => Seq::empty(),
    }
}

/// A column with its flag where the flag is given, else nothing.
pub open spec fn given_bool(column: Column, flag: Option<bool>) -> Seq<(Column, ValueView)> {
    match flag {
        Some(f) => seq![(column, ValueView::Bool(f))],
        None => Seq::empty(),
    }
}

/// Adds a column with a text to the list.
pub fn bind_text(list: &mut Vec<Assignment>, column: Column, text: &String)
    ensures
        pairs(final(list)@) == pairs(old(list)@) + one(column, ValueView::Text(text@)),
{
    list.push(Assignment { column, value: Value::Text(text.clone()) });
    proof {
        assert(pairs(list@) =~= pairs(old(list)@) + one(column, ValueView::Text(text@)));
    }
}

/// Adds a column with a number to the list.
pub fn bind_int(list: &mut Vec<Assignment>, column: Column, number: i32)
    ensures
        pairs(final(list)@) == pairs(old(list)@) + one(column, ValueView::Int(number)),
{
    list.push(Assignment { column, value: Value::Int(number) });
    proof {
        assert(pairs(list@) =~= pairs(old(list)@) + one(column, ValueView::Int(number)));
    }
}

/// Adds a column with a flag to the list.
pub fn bind_bool(list: &mut Vec<Assignment>, column: Column, flag: bool)
    ensures
        pairs(final(list)@) == pairs(old(list)@) + one(column, ValueView::Bool(flag)),
{
    list.push(Assignment { column, value: Value::Bool(flag) });
    proof {
        assert(pairs(list@) =~= pairs(old(list)@) + one(column, ValueView::Bool(flag)));
    }
}

/// Adds a column with a text to the list where the text is given.
pub fn bind_given_text(list: &mut Vec<Assignment>, column: Column, text: &Option<String>)
    ensures
        pairs(final(list)@) == pairs(old(list)@) + given_text(column, *text),
{
    match text {
        Some(t) => bind_text(list, column, t),
        None => {
            proof {
                assert(pairs(list@) =~= pairs(old(list)@) + given_text(column, *text));
            }
        },
    }
}

/// Adds a column with a number to the list where the number is given.
pub fn bind_given_int(list: &mut Vec<Assignment>, column: Column, number: Option<i32>)
    ensures
        pairs(final(list)@) == pairs(old(list)@) + given_int(column, number),
{
    match number {
        Some(n) => bind_int(list, column, n),
        None => {
            proof {
                assert(pairs(list@) =~= pairs(old(list)@) + given_int(column, number));
            }
        },
    }
}

/// Adds a column with a flag to the list where the flag is given.
pub fn bind_given_bool(list: &mut Vec<Assignment>, column: Column, flag: Option<bool>)
    ensures
        pairs(final(list)@) == pairs(old(list)@) + given_bool(column, flag),
{
    match flag {
        Some(f) => bind_bool(list, column, f),
        None => {
            proof {
                assert(pairs(list@) =~= pairs(old(list)@) + given_bool(column, flag));
            }
        },
    }
}

/// An entity that lives in a table of a relational database.
pub trait Mapped: Entity {
    /// The entity's table.
    spec fn table_name() -> TableName;

    /// The column that a key names, and the value that it looks for there.
    spec fn condition_of(key: Self::Key) -> (Column, ValueView);

    /// The columns that an insert binds, with their values: every column but the id.
    spec fn fields_of(new: Self::New) -> Seq<(Column, ValueView)>;

    /// The columns that a partial update binds, with their values: the
    /// fields that the update names, and no others.
    spec fn changes_of(patch: Self::Patch) -> Seq<(Column, ValueView)>;

    /// A partial update binds no column exactly when it names no field, and
    /// never more columns than a row has.
    proof fn changes_are_named(patch: Self::Patch)
        ensures
            (Self::changes_of(patch).len() == 0) == Self::names_nothing(patch),
            Self::changes_of(patch).len() <= 16,
    ;

    /// The status that rejects an update which names no field.
    fn no_change() -> (status: Status)
        ensures
            rejects(status, Self::no_change_text()),
    ;

    fn table() -> (table: TableName)
        ensures
            table == Self::table_name(),
    ;

    fn condition(key: &Self::Key) -> (condition: Assignment)
        ensures
            (condition.column, condition.value@) == Self::condition_of(*key),
    ;

    fn fields(new: &Self::New) -> (fields: Vec<Assignment>)
        ensures
            pairs(fields@) == Self::fields_of(*new),
    ;

    fn changes(patch: &Self::Patch) -> (changes: Vec<Assignment>)
        ensures
            pairs(changes@) == Self::changes_of(*patch),
    ;
}

/// The statement that lists an entity's table in ascending order of id.
pub fn list_statement<E: Mapped>() -> (statement: Statement)
    ensures
        statement.sql@ == list_text(E::table_name()),
        statement.params@.len() == 0,
{
    Statement::list(E::table())
}

/// The statement that reads the rows that a key selects, in ascending order
/// of id: the key's value is bound, its column is one of the entity's own.
pub fn select_statement<E: Mapped>(key: &E::Key) -> (statement: Statement)
    ensures
        statement.sql@ == select_text(E::table_name(), E::condition_of(*key).0),
        bound(statement.params@) == seq![E::condition_of(*key).1],
{
    Statement::select(E::table(), E::condition(key))
}

/// The statement that inserts a row and returns it with its id.
pub fn insert_statement<E: Mapped>(new: &E::New) -> (statement: Statement)
    ensures
        statement.sql@ == insert_text(E::table_name(), columns_in(E::fields_of(*new))),
        bound(statement.params@) == values_in(E::fields_of(*new)),
{
    Statement::insert(E::table(), E::fields(new))
}

/// The statement that applies a partial update to the row with the id and
/// returns the row. Only the fields that the update names stand in it; an
/// update that names none has no statement: there is nothing to update.
pub fn update_statement<E: Mapped>(id: i32, patch: &E::Patch) -> (statement: Option<Statement>)
    ensures
        match statement {
            Some(made) => {
                &&& !E::names_nothing(*patch)
                &&& made.sql@ == update_text(E::table_name(), columns_in(E::changes_of(*patch)))
                &&& bound(made.params@) == values_in(E::changes_of(*patch)).push(ValueView::Int(id))
            },
            None => E::names_nothing(*patch),
        },
{
    proof {
        E::changes_are_named(*patch);
    }
    Statement::update(E::table(), E::changes(patch), id)
}

/// The statement of a partial update, or the status that rejects an update
/// which names no field.
pub fn update_request<E: Mapped>(id: i32, patch: &E::Patch) -> (out: Result<Statement, Status>)
    ensures
        match out {
            Ok(made) => {
                &&& !E::names_nothing(*patch)
                &&& made.sql@ == update_text(E::table_name(), columns_in(E::changes_of(*patch)))
                &&& bound(made.params@) == values_in(E::changes_of(*patch)).push(ValueView::Int(id))
            },
            Err(status) => E::names_nothing(*patch) && rejects(status, E::no_change_text()),
        },
{
    match update_statement::<E>(id, patch) {
        Some(made) => Ok(made),
        None => Err(E::no_change()),
    }
}

/// The statement that deletes the rows that a key selects.
pub fn delete_statement<E: Mapped>(key: &E::Key) -> (statement: Statement)
    ensures
        statement.sql@ == delete_text(E::table_name(), E::condition_of(*key).0),
        bound(statement.params@) == seq![E::condition_of(*key).1],
{
    Statement::delete(E::table(), E::condition(key))
}

} // verus!
