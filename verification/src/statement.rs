//! Statements for a relational database: the text with numbered
//! placeholders, and the values bound to them. Table and column names come
//! from fixed lists; what a caller supplies is only ever bound as a value.

use vstd::prelude::*;

verus! {

/// The tables of the schema.
#[derive(Clone, Copy, Debug, PartialEq, Eq, Structural)]
pub enum TableName {
    Agents,
    Routers,
    Tunnels,
    Users,
    Permissions,
    PermissionMembership,
}

/// The columns of the schema.
#[derive(Clone, Copy, Debug, PartialEq, Eq, Structural)]
pub enum Column {
    Id,
    Uuid,
    Description,
    Owner,
    Agent,
    SnmpCommunity,
    SshUsername,
    SshPassword,
    ConnType,
    RouterType,
    Version,
    Router,
    Ip,
    DynamicIp,
    IpClass,
    Hostname,
    Source,
    Cost,
    TunnelType,
    TopologyType,
    Email,
    Name,
    Permission,
    UserId,
}

/// A value bound to a placeholder.
#[derive(Debug)]
pub enum Value {
    Int(i32),
    Bool(bool),
    Text(String),
}

/// A bound value as the contracts see it.
pub enum ValueView {
    Int(i32),
    Bool(bool),
    Text(Seq<char>),
}

impl View for Value {
    type V = ValueView;

    open spec fn view(&self) -> ValueView {
        match self {
            Value::Int(number) => ValueView::Int(*number),
            Value::Bool(flag) => ValueView::Bool(*flag),
            Value::Text(text) => ValueView::Text(text@),
        }
    }
}

/// A column together with the value that a statement binds to it.
#[derive(Debug)]
pub struct Assignment {
    pub column: Column,
    pub value: Value,
}

/// A statement: its text and the values for its placeholders, in order.
#[derive(Debug)]
pub struct Statement {
    pub sql: String,
    pub params: Vec<Value>,
}

/// The name of a table, as it stands in a statement.
pub open spec fn table_text(table: TableName) -> Seq<char> {
    match table {
        TableName::Agents => "agents"@,
        TableName::Routers => "routers"@,
        TableName::Tunnels => "tunnels"@,
        TableName::Users => "users"@,
        TableName::Permissions => "permissions"@,
        TableName::PermissionMembership => "permission_membership"@,
    }
}

/// The name of a column, as it stands in a statement.
pub open spec fn column_text(column: Column) -> Seq<char> {
    match column {
        Column::Id => "id"@,
        Column::Uuid => "uuid"@,
        Column::Description => "description"@,
        Column::Owner => "owner"@,
        Column::Agent => "agent"@,
        Column::SnmpCommunity => "snmp_community"@,
        Column::SshUsername => "ssh_username"@,
        Column::SshPassword => "ssh_password"@,
        Column::ConnType => "conn_type"@,
        Column::RouterType => "router_type"@,
        Column::Version => "version"@,
        Column::Router => "router"@,
        Column::Ip => "ip"@,
        Column::DynamicIp => "dynamic_ip"@,
        Column::IpClass => "ip_class"@,
        Column::Hostname => "hostname"@,
        Column::Source => "source"@,
        Column::Cost => "cost"@,
        Column::TunnelType => "tunnel_type"@,
        Column::TopologyType => "topology_type"@,
        Column::Email => "email"@,
        Column::Name => "name"@,
        Column::Permission => "permission"@,
        Column::UserId => "user_id"@,
    }
}

/// One decimal digit as text.
pub open spec fn digit_text(digit: nat) -> Seq<char> {
    if digit == 0 {
        "0"@
    } else if digit == 1 {
        "1"@
    } else if digit == 2 {
        "2"@
    } else if digit == 3 {
        "3"@
    } else if digit == 4 {
        "4"@
    } else if digit == 5 {
        "5"@
    } else if digit == 6 {
        "6"@
    } else if digit == 7 {
        "7"@
    } else if digit == 8 {
        "8"@
    } else {
        "9"@
    }
}

/// A number in decimal, without leading zeros.
pub open spec fn decimal_text(number: nat) -> Seq<char>
    decreases number,
{
    if number < 10 {
        digit_text(number)
    } else {
        decimal_text(number / 10) + digit_text(number % 10)
    }
}

/// The placeholder for the bound value number `number`, counted from one.
pub open spec fn placeholder_text(number: nat) -> Seq<char> {
    "$"@ + decimal_text(number)
}

/// The assignments of an update, separated by commas: each column followed
/// by the placeholder that its place in the list gives it.
pub open spec fn set_text(columns: Seq<Column>) -> Seq<char>
    decreases columns.len(),
{
    if columns.len() == 0 {
        Seq::empty()
    } else if columns.len() == 1 {
        column_text(columns[0]) + " = "@ + placeholder_text(1)
    } else {
        set_text(columns.drop_last()) + ", "@ + column_text(columns.last()) + " = "@
            + placeholder_text(columns.len())
    }
}

/// Column names separated by commas.
pub open spec fn names_text(columns: Seq<Column>) -> Seq<char>
    decreases columns.len(),
{
    if columns.len() == 0 {
        Seq::empty()
    } else if columns.len() == 1 {
        column_text(columns[0])
    } else {
        names_text(columns.drop_last()) + ", "@ + column_text(columns.last())
    }
}

/// The placeholders from one to `count`, separated by commas.
pub open spec fn placeholders_text(count: nat) -> Seq<char>
    decreases count,
{
    if count == 0 {
        Seq::empty()
    } else if count == 1 {
        placeholder_text(1)
    } else {
        placeholders_text((count - 1) as nat) + ", "@ + placeholder_text(count)
    }
}

/// The text of the statement that reads a whole table in ascending order of id.
pub open spec fn list_text(table: TableName) -> Seq<char> {
    "SELECT * FROM "@ + table_text(table) + " ORDER BY id"@
}

/// The text of the statement that reads the rows with a given value in a
/// column, in ascending order of id.
pub open spec fn select_text(table: TableName, column: Column) -> Seq<char> {
    "SELECT * FROM "@ + table_text(table) + " WHERE "@ + column_text(column) + " = $1 ORDER BY id"@
}

/// The text of the statement that inserts a row and returns it.
pub open spec fn insert_text(table: TableName, columns: Seq<Column>) -> Seq<char> {
    "INSERT INTO "@ + table_text(table) + " ("@ + names_text(columns) + ") VALUES ("@
        + placeholders_text(columns.len()) + ") RETURNING *"@
}

/// The text of the statement that changes the given columns of the row with
/// a given id and returns the row.
pub open spec fn update_text(table: TableName, columns: Seq<Column>) -> Seq<char> {
    "UPDATE "@ + table_text(table) + " SET "@ + set_text(columns) + " WHERE id = "@
        + placeholder_text(columns.len() + 1) + " RETURNING *"@
}

/// The text of the statement that deletes the rows with a given value in a column.
pub open spec fn delete_text(table: TableName, column: Column) -> Seq<char> {
    "DELETE FROM "@ + table_text(table) + " WHERE "@ + column_text(column) + " = $1"@
}

/// A list of assignments as the contracts see it: each column with the
/// value bound to it.
pub open spec fn pairs(assignments: Seq<Assignment>) -> Seq<(Column, ValueView)> {
    assignments.map_values(|a: Assignment| (a.column, a.value@))
}

/// The columns of a list of pairs, in order.
pub open spec fn columns_in(pairs: Seq<(Column, ValueView)>) -> Seq<Column> {
    pairs.map_values(|pair: (Column, ValueView)| pair.0)
}

/// The values of a list of pairs, in order.
pub open spec fn values_in(pairs: Seq<(Column, ValueView)>) -> Seq<ValueView> {
    pairs.map_values(|pair: (Column, ValueView)| pair.1)
}

/// The columns of a list of assignments, in order.
pub open spec fn columns_of(assignments: Seq<Assignment>) -> Seq<Column> {
    columns_in(pairs(assignments))
}

/// The values of a list of assignments, in order.
pub open spec fn values_of(assignments: Seq<Assignment>) -> Seq<ValueView> {
    values_in(pairs(assignments))
}

/// The values of a statement, as the contracts see them.
pub open spec fn bound(params: Seq<Value>) -> Seq<ValueView> {
    params.map_values(|v: Value| v@)
}

impl TableName {
    /// The name of the table, as it stands in a statement.
    pub fn name(&self) -> (name: &'static str)
        ensures
            name@ == table_text(*self),
    {
        match self {
            TableName::Agents => "agents",
            TableName::Routers => "routers",
            TableName::Tunnels => "tunnels",
            TableName::Users => "users",
            TableName::Permissions => "permissions",
            TableName::PermissionMembership => "permission_membership",
        }
    }
}

impl Column {
    /// The name of the column, as it stands in a statement.
    pub fn name(&self) -> (name: &'static str)
        ensures
            name@ == column_text(*self),
    {
        match self {
            Column::Id => "id",
            Column::Uuid => "uuid",
            Column::Description => "description",
            Column::Owner => "owner",
            Column::Agent => "agent",
            Column::SnmpCommunity => "snmp_community",
            Column::SshUsername => "ssh_username",
            Column::SshPassword => "ssh_password",
            Column::ConnType => "conn_type",
            Column::RouterType => "router_type",
            Column::Version => "version",
            Column::Router => "router",
            Column::Ip => "ip",
            Column::DynamicIp => "dynamic_ip",
            Column::IpClass => "ip_class",
            Column::Hostname => "hostname",
            Column::Source => "source",
            Column::Cost => "cost",
            Column::TunnelType => "tunnel_type",
            Column::TopologyType => "topology_type",
            Column::Email => "email",
            Column::Name => "name",
            Column::Permission => "permission",
            Column::UserId => "user_id",
        }
    }
}

impl Value {
    /// A copy of the value.
    pub fn copy(&self) -> (copy: Value)
        ensures
            copy@ == self@,
    {
        match self {
            Value::Int(number) => Value::Int(*number),
            Value::Bool(flag) => Value::Bool(*flag),
            Value::Text(text) => Value::Text(text.clone()),
        }
    }
}

/// One decimal digit as text.
fn digit(value: usize) -> (text: &'static str)
    requires
        value < 10,
    ensures
        text@ == digit_text(value as nat),
{
    if value == 0 {
        "0"
    } else if value == 1 {
        "1"
    } else if value == 2 {
        "2"
    } else if value == 3 {
        "3"
    } else if value == 4 {
        "4"
    } else if value == 5 {
        "5"
    } else if value == 6 {
        "6"
    } else if value == 7 {
        "7"
    } else if value == 8 {
        "8"
    } else {
        "9"
    }
}

/// A number in decimal, without leading zeros.
pub fn decimal(number: usize) -> (text: String)
    ensures
        text@ == decimal_text(number as nat),
    decreases number,
{
    if number < 10 {
        digit(number).to_owned()
    } else {
        let mut text = decimal(number / 10);
        text.append(digit(number % 10));
        text
    }
}

/// The placeholder for the bound value number `number`, counted from one.
pub fn placeholder(number: usize) -> (text: String)
    ensures
        text@ == placeholder_text(number as nat),
{
    let mut text = "$".to_owned();
    let digits = decimal(number);
    text.append(digits.as_str());
    text
}

/// The text of the assignments of an update, and the values bound in it.
fn set_clause(changes: &Vec<Assignment>) -> (clause: (String, Vec<Value>))
    ensures
        clause.0@ == set_text(columns_of(changes@)),
        bound(clause.1@) == values_of(changes@),
{
    let mut text = String::new();
    let mut params: Vec<Value> = Vec::new();
    let mut i: usize = 0;
    let ghost columns = columns_of(changes@);
    proof {
        assert(bound(params@) =~= values_of(changes@).take(0));
    }
    while i < changes.len()
        invariant
            0 <= i <= changes@.len(),
            columns == columns_of(changes@),
            text@ == set_text(columns.take(i as int)),
            bound(params@) == values_of(changes@).take(i as int),
        decreases changes@.len() - i,
    {
        let ghost before = text@;
        let ghost bound_before = params@;
        if i > 0 {
            text.append(", ");
        }
        text.append(changes[i].column.name());
        text.append(" = ");
        let mark = placeholder(i + 1);
        text.append(mark.as_str());
        params.push(changes[i].value.copy());
        proof {
            let now = columns.take(i + 1);
            assert(now.drop_last() =~= columns.take(i as int));
            assert(now.last() == changes@[i as int].column);
            if i == 0 {
                assert(text@ =~= column_text(now[0]) + " = "@ + placeholder_text(1));
            } else {
                assert(text@ =~= before + ", "@ + column_text(now.last()) + " = "@
                    + placeholder_text(now.len()));
            }
            assert(bound(params@) =~= bound(bound_before).push(changes@[i as int].value@));
            assert(values_of(changes@).take(i + 1) =~= values_of(changes@).take(i as int).push(
                changes@[i as int].value@,
            ));
        }
        i += 1;
    }
    proof {
        assert(columns.take(i as int) =~= columns);
        assert(values_of(changes@).take(i as int) =~= values_of(changes@));
    }
    (text, params)
}

/// The column names of an insert, separated by commas.
fn names_clause(fields: &Vec<Assignment>) -> (text: String)
    ensures
        text@ == names_text(columns_of(fields@)),
{
    let mut text = String::new();
    let mut i: usize = 0;
    let ghost columns = columns_of(fields@);
    while i < fields.len()
        invariant
            0 <= i <= fields@.len(),
            columns == columns_of(fields@),
            text@ == names_text(columns.take(i as int)),
        decreases fields@.len() - i,
    {
        let ghost before = text@;
        if i > 0 {
            text.append(", ");
        }
        text.append(fields[i].column.name());
        proof {
            let now = columns.take(i + 1);
            assert(now.drop_last() =~= columns.take(i as int));
            assert(now.last() == fields@[i as int].column);
            if i == 0 {
                assert(text@ =~= column_text(now[0]));
            } else {
                assert(text@ =~= before + ", "@ + column_text(now.last()));
            }
        }
        i += 1;
    }
    proof {
        assert(columns.take(i as int) =~= columns);
    }
    text
}

/// The placeholders from one to `count`, separated by commas.
fn placeholders(count: usize) -> (text: String)
    ensures
        text@ == placeholders_text(count as nat),
{
    let mut text = String::new();
    let mut i: usize = 0;
    while i < count
        invariant
            0 <= i <= count,
            text@ == placeholders_text(i as nat),
        decreases count - i,
    {
        let ghost before = text@;
        if i > 0 {
            text.append(", ");
        }
        let mark = placeholder(i + 1);
        text.append(mark.as_str());
        proof {
            if i == 0 {
                assert(text@ =~= placeholder_text(1));
            } else {
                assert(text@ =~= before + ", "@ + placeholder_text((i + 1) as nat));
            }
        }
        i += 1;
    }
    text
}

/// The bound values of a list of assignments, in order.
fn values(fields: &Vec<Assignment>) -> (params: Vec<Value>)
    ensures
        bound(params@) == values_of(fields@),
{
    let mut params: Vec<Value> = Vec::new();
    let mut i: usize = 0;
    proof {
        assert(bound(params@) =~= values_of(fields@).take(0));
    }
    while i < fields.len()
        invariant
            0 <= i <= fields@.len(),
            bound(params@) == values_of(fields@).take(i as int),
        decreases fields@.len() - i,
    {
        let ghost before = params@;
        params.push(fields[i].value.copy());
        proof {
            assert(bound(params@) =~= bound(before).push(fields@[i as int].value@));
            assert(values_of(fields@).take(i + 1) =~= values_of(fields@).take(i as int).push(
                fields@[i as int].value@,
            ));
        }
        i += 1;
    }
    proof {
        assert(values_of(fields@).take(i as int) =~= values_of(fields@));
    }
    params
}

impl Statement {
    /// The statement that reads a whole table in ascending order of id. It
    /// binds no value.
    pub fn list(table: TableName) -> (statement: Statement)
        ensures
            statement.sql@ == list_text(table),
            statement.params@.len() == 0,
    {
        let mut sql = "SELECT * FROM ".to_owned();
        sql.append(table.name());
        sql.append(" ORDER BY id");
        Statement { sql, params: Vec::new() }
    }

    /// The statement that reads the rows whose column holds the value, in
    /// ascending order of id. The value is bound, never written into the text.
    pub fn select(table: TableName, condition: Assignment) -> (statement: Statement)
        ensures
            statement.sql@ == select_text(table, condition.column),
            bound(statement.params@) == seq![condition.value@],
    {
        let mut sql = "SELECT * FROM ".to_owned();
        sql.append(table.name());
        sql.append(" WHERE ");
        sql.append(condition.column.name());
        sql.append(" = $1 ORDER BY id");
        let mut params: Vec<Value> = Vec::new();
        params.push(condition.value);
        proof {
            assert(bound(params@) =~= seq![condition.value@]);
        }
        Statement { sql, params }
    }

    /// The statement that inserts a row with the given fields and returns
    /// it. The values are bound in the order of the fields.
    pub fn insert(table: TableName, fields: Vec<Assignment>) -> (statement: Statement)
        ensures
            statement.sql@ == insert_text(table, columns_of(fields@)),
            bound(statement.params@) == values_of(fields@),
    {
        let mut sql = "INSERT INTO ".to_owned();
        sql.append(table.name());
        sql.append(" (");
        let names = names_clause(&fields);
        sql.append(names.as_str());
        sql.append(") VALUES (");
        let marks = placeholders(fields.len());
        sql.append(marks.as_str());
        sql.append(") RETURNING *");
        let params = values(&fields);
        Statement { sql, params }
    }

    /// The statement that changes the given columns of the row with the id
    /// and returns the row: only the columns in `changes` stand in it, the
    /// values are bound in their order, and the id is bound last. With no
    /// change there is nothing to update, and no statement.
    pub fn update(table: TableName, changes: Vec<Assignment>, id: i32) -> (statement: Option<
        Statement,
    >)
        requires
            changes@.len() < usize::MAX,
        ensures
            changes@.len() == 0 ==> statement is None,
            changes@.len() > 0 ==> (statement matches Some(made) && made.sql@ == update_text(
                table,
                columns_of(changes@),
            ) && bound(made.params@) == values_of(changes@).push(ValueView::Int(id))),
    {
        if changes.len() == 0 {
            return None;
        }
        let mut sql = "UPDATE ".to_owned();
        sql.append(table.name());
        sql.append(" SET ");
        let (set, mut params) = set_clause(&changes);
        sql.append(set.as_str());
        sql.append(" WHERE id = ");
        let mark = placeholder(changes.len() + 1);
        sql.append(mark.as_str());
        sql.append(" RETURNING *");
        let ghost before = params@;
        params.push(Value::Int(id));
        proof {
            assert(bound(params@) =~= bound(before).push(ValueView::Int(id)));
        }
        Some(Statement { sql, params })
    }

    /// The statement that deletes the rows whose column holds the value.
    /// The value is bound, never written into the text.
    pub fn delete(table: TableName, condition: Assignment) -> (statement: Statement)
        ensures
            statement.sql@ == delete_text(table, condition.column),
            bound(statement.params@) == seq![condition.value@],
    {
        let mut sql = "DELETE FROM ".to_owned();
        sql.append(table.name());
        sql.append(" WHERE ");
        sql.append(condition.column.name());
        sql.append(" = $1");
        let mut params: Vec<Value> = Vec::new();
        params.push(condition.value);
        proof {
            assert(bound(params@) =~= seq![condition.value@]);
        }
        Statement { sql, params }
    }
}

} // verus!
