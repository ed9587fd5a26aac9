//! Agents: management endpoints, each owned by a user.

use vstd::prelude::*;
use crate::api::{AgentData, IdUuidOrOwner};
use crate::error::{nothing_to_update, Status};
use crate::mapping::{
    bind_given_int, bind_given_text, bind_int, bind_text, given_int, given_text, one, Mapped,
};
use crate::statement::{pairs, Assignment, Column, TableName, Value, ValueView};
use crate::response::{
    added, answers_rows, count_response, deleted, got_listed, listed, listed_response,
    row_response, rows_response, updated, Shows,
};
use crate::store::Store;
use crate::table::{views, Record};
use crate::text::{copy_opt, is_blank, keep_text, meant_text, or_empty, unwrap_or_empty};

verus! {

/// A row of the agents table.
#[derive(Debug)]
pub struct Agent {
    pub id: i32,
    pub uuid: String,
    pub description: String,
    pub owner: i32,
}

/// An agent row as the contracts see it.
pub struct AgentView {
    pub id: i32,
    pub uuid: Seq<char>,
    pub description: Seq<char>,
    pub owner: i32,
}

/// The fields that an insert of an agent supplies.
#[derive(Debug)]
pub struct NewAgent {
    pub uuid: String,
    /// Stored as the empty text where it is not given.
    pub description: Option<String>,
    pub owner: i32,
}

/// A partial update of an agent: a field that is `None` is left alone.
#[derive(Debug)]
pub struct UpdateAgent {
    pub uuid: Option<String>,
    pub description: Option<String>,
    pub owner: Option<i32>,
}

impl View for Agent {
    type V = AgentView;

    open spec fn view(&self) -> AgentView {
        AgentView {
            id: self.id,
            uuid: self.uuid@,
            description: self.description@,
            owner: self.owner,
        }
    }
}

impl Record for Agent {
    type Key = IdUuidOrOwner;

    type New = NewAgent;

    type Patch = UpdateAgent;

    open spec fn id_of(row: AgentView) -> i32 {
        row.id
    }

    open spec fn selects(key: IdUuidOrOwner, row: AgentView) -> bool {
        match key {
            IdUuidOrOwner::Id(id) => row.id == id,
            IdUuidOrOwner::Uuid(uuid) => row.uuid == uuid@,
            IdUuidOrOwner::Owner(owner) => row.owner == owner,
        }
    }

    open spec fn created(id: i32, new: NewAgent) -> AgentView {
        AgentView { id, uuid: new.uuid@, description: or_empty(new.description), owner: new.owner }
    }

    open spec fn patched(row: AgentView, patch: UpdateAgent) -> AgentView {
        AgentView {
            id: row.id,
            uuid: match patch.uuid {
                Some(uuid) => uuid@,
                None => row.uuid,
            },
            description: match patch.description {
                Some(description) => description@,
                None => row.description,
            },
            owner: match patch.owner {
                Some(owner) => owner,
                None => row.owner,
            },
        }
    }

    open spec fn unique_of(row: AgentView) -> Option<Seq<char>> {
        None
    }

    open spec fn link_of(row: AgentView, slot: int) -> i32 {
        row.owner
    }

    proof fn created_id(id: i32, new: NewAgent) {
    }

    proof fn patched_id(row: AgentView, patch: UpdateAgent) {
    }

    fn id(&self) -> (id: i32) {
        self.id
    }

    fn matches(&self, key: &IdUuidOrOwner) -> (hit: bool) {
        match key {
            IdUuidOrOwner::Id(id) => self.id == *id,
            IdUuidOrOwner::Uuid(uuid) => self.uuid == *uuid,
            IdUuidOrOwner::Owner(owner) => self.owner == *owner,
        }
    }

    fn holds_unique(&self, text: &String) -> (hit: bool) {
        false
    }

    fn link(&self, slot: u8) -> (id: i32) {
        self.owner
    }

    fn copy(&self) -> (row: Agent) {
        Agent {
            id: self.id,
            uuid: self.uuid.clone(),
            description: self.description.clone(),
            owner: self.owner,
        }
    }

    fn create(id: i32, new: NewAgent) -> (row: Agent) {
        Agent {
            id,
            uuid: new.uuid,
            description: unwrap_or_empty(new.description),
            owner: new.owner,
        }
    }

    fn patch(&self, patch: &UpdateAgent) -> (row: Agent) {
        let uuid = match &patch.uuid {
            Some(uuid) => uuid.clone(),
            None => self.uuid.clone(),
        };
        let description = match &patch.description {
            Some(description) => description.clone(),
            None => self.description.clone(),
        };
        let owner = match patch.owner {
            Some(owner) => owner,
            None => self.owner,
        };
        Agent { id: self.id, uuid, description, owner }
    }
}

impl Mapped for Agent {
    open spec fn table_name() -> TableName {
        TableName::Agents
    }

    open spec fn condition_of(key: IdUuidOrOwner) -> (Column, ValueView) {
        match key {
            IdUuidOrOwner::Id(id) => (Column::Id, ValueView::Int(id)),
            IdUuidOrOwner::Uuid(uuid) => (Column::Uuid, ValueView::Text(uuid@)),
            IdUuidOrOwner::Owner(owner) => (Column::Owner, ValueView::Int(owner)),
        }
    }

    open spec fn fields_of(new: NewAgent) -> Seq<(Column, ValueView)> {
        one(Column::Uuid, ValueView::Text(new.uuid@))
            + one(Column::Description, ValueView::Text(or_empty(new.description)))
            + one(Column::Owner, ValueView::Int(new.owner))
    }

    open spec fn changes_of(patch: UpdateAgent) -> Seq<(Column, ValueView)> {
        given_text(Column::Uuid, patch.uuid)
            + given_text(Column::Description, patch.description)
            + given_int(Column::Owner, patch.owner)
    }

    proof fn changes_are_named(patch: UpdateAgent) {
    }

    fn no_change() -> (status: Status) {
        nothing_to_update()
    }

    fn table() -> (table: TableName) {
        TableName::Agents
    }

    fn condition(key: &IdUuidOrOwner) -> (condition: Assignment) {
        match key {
            IdUuidOrOwner::Id(id) => Assignment { column: Column::Id, value: Value::Int(*id) },
            IdUuidOrOwner::Uuid(uuid) => Assignment {
                column: Column::Uuid,
                value: Value::Text(uuid.clone()),
            },
            IdUuidOrOwner::Owner(owner) => Assignment {
                column: Column::Owner,
                value: Value::Int(*owner),
            },
        }
    }

    fn fields(new: &NewAgent) -> (fields: Vec<Assignment>) {
        let mut fields: Vec<Assignment> = Vec::new();
        bind_text(&mut fields, Column::Uuid, &new.uuid);
        bind_text(&mut fields, Column::Description, &unwrap_or_empty(copy_opt(&new.description)));
        bind_int(&mut fields, Column::Owner, new.owner);
        proof {
            assert(pairs(fields@) =~= Self::fields_of(*new));
        }
        fields
    }

    fn changes(patch: &UpdateAgent) -> (changes: Vec<Assignment>) {
        let mut changes: Vec<Assignment> = Vec::new();
        bind_given_text(&mut changes, Column::Uuid, &patch.uuid);
        bind_given_text(&mut changes, Column::Description, &patch.description);
        bind_given_int(&mut changes, Column::Owner, patch.owner);
        proof {
            assert(pairs(changes@) =~= Self::changes_of(*patch));
        }
        changes
    }
}

impl UpdateAgent {
    /// Whether the update names no field at all.
    pub open spec fn is_empty_spec(&self) -> bool {
        self.uuid is None && self.description is None && self.owner is None
    }

    /// Whether the update names no field at all.
    pub fn is_empty(&self) -> (empty: bool)
        ensures
            empty == self.is_empty_spec(),
    {
        self.uuid.is_none() && self.description.is_none() && self.owner.is_none()
    }
}

impl From<Agent> for AgentData {
    /// The message that shows the row, made of the row's own fields.
    fn from(a: Agent) -> (shown: AgentData) {
        AgentData {
            id: Some(a.id),
            uuid: a.uuid,
            description: Some(a.description),
            owner: a.owner,
        }
    }
}

impl vstd::std_specs::convert::FromSpecImpl<Agent> for AgentData {
    open spec fn obeys_from_spec() -> bool {
        true
    }

    open spec fn from_spec(a: Agent) -> AgentData {
        AgentData {
            id: Some(a.id),
            uuid: a.uuid,
            description: Some(a.description),
            owner: a.owner,
        }
    }
}

impl Shows<Agent> for AgentData {
    /// Whether the message shows the row: every field of it, the id and the
    /// description as given.
    open spec fn shows(&self, row: AgentView) -> bool {
        &&& self.id == Some(row.id)
        &&& self.uuid@ == row.uuid
        &&& self.description matches Some(description) && description@ == row.description
        &&& self.owner == row.owner
    }

    fn of(row: &Agent) -> (shown: AgentData) {
        AgentData {
            id: Some(row.id),
            uuid: row.uuid.clone(),
            description: Some(row.description.clone()),
            owner: row.owner,
        }
    }
}

/// The insert that an add request asks for.
pub open spec fn new_agent(data: AgentData) -> NewAgent {
    NewAgent { uuid: data.uuid, description: data.description, owner: data.owner }
}

/// The partial update that an update request asks for: an empty uuid and
/// an owner of zero mean "leave alone", and so does a description that is
/// not given or is given empty.
pub open spec fn agent_patch(data: AgentData) -> UpdateAgent {
    UpdateAgent {
        uuid: if data.uuid@.len() > 0 {
            Some(data.uuid)
        } else {
            None
        },
        description: meant_text(data.description),
        owner: if data.owner != 0 {
            Some(data.owner)
        } else {
            None
        },
    }
}

impl NewAgent {
    /// The insert that an add request asks for.
    pub fn of(agent_data: AgentData) -> (new: NewAgent)
        ensures
            new == new_agent(agent_data),
    {
        NewAgent {
            uuid: agent_data.uuid,
            description: agent_data.description,
            owner: agent_data.owner,
        }
    }
}

impl UpdateAgent {
    /// The partial update that an update request asks for.
    pub fn of(agent_data: AgentData) -> (update: UpdateAgent)
        ensures
            update == agent_patch(agent_data),
    {
        let uuid = if is_blank(&agent_data.uuid) {
            None
        } else {
            Some(agent_data.uuid)
        };
        let owner = if agent_data.owner != 0 {
            Some(agent_data.owner)
        } else {
            None
        };
        UpdateAgent { uuid, description: keep_text(agent_data.description), owner }
    }
}

impl Agent {
    /// Every agent, in ascending order of id.
    pub fn all(store: &Store) -> (out: Result<Vec<AgentData>, Status>)
        ensures
            listed::<Agent, AgentData>(*store, out),
    {
        rows_response(Ok(store.agents.all()))
    }

    /// The answer to a lookup, from the rows that the key selected: the rows
    /// shown, or "not found" where a lookup by id selected none.
    pub fn found(id_uuid_or_owner: &IdUuidOrOwner, rows: Vec<Agent>) -> (out: Result<
        Vec<AgentData>,
        Status,
    >)
        ensures
            answers_rows::<Agent, AgentData>(*id_uuid_or_owner is Id, views(rows@), out),
    {
        listed_response(matches!(id_uuid_or_owner, IdUuidOrOwner::Id(_)), rows)
    }

    /// The agents that the key selects, in ascending order of id. A lookup
    /// by id that finds no agent is "not found"; a lookup by uuid or owner
    /// that finds none answers with an empty list.
    pub fn get(store: &Store, id_uuid_or_owner: &IdUuidOrOwner) -> (out: Result<
        Vec<AgentData>,
        Status,
    >)
        ensures
            got_listed::<Agent, AgentData>(
                *store,
                *id_uuid_or_owner,
                *id_uuid_or_owner is Id,
                out,
            ),
    {
        Agent::found(id_uuid_or_owner, store.agents.select(id_uuid_or_owner))
    }

    /// Adds an agent and returns it with its new id.
    pub fn add(store: &mut Store, agent_data: AgentData) -> (out: Result<AgentData, Status>)
        requires
            old(store).wf(),
        ensures
            final(store).wf(),
            added::<Agent, AgentData>(*old(store), new_agent(agent_data), *final(store), out),
    {
        row_response(store.insert_agent(NewAgent::of(agent_data)))
    }

    /// Changes the fields of an agent that the request names and returns the
    /// agent as it then stands. The request must carry the id.
    pub fn update(store: &mut Store, agent_data: AgentData) -> (out: Result<AgentData, Status>)
        requires
            old(store).wf(),
            agent_data.id is Some,
        ensures
            final(store).wf(),
            updated::<Agent, AgentData>(
                *old(store),
                agent_data.id.unwrap(),
                agent_patch(agent_data),
                *final(store),
                out,
            ),
    {
        let id = agent_data.id.unwrap();
        let update = UpdateAgent::of(agent_data);
        if update.is_empty() {
            return Err(nothing_to_update());
        }
        row_response(store.update_agent(id, &update))
    }

    /// Deletes the agents that the key selects and returns how many they were.
    pub fn delete(store: &mut Store, id_uuid_or_owner: IdUuidOrOwner) -> (out: Result<
        usize,
        Status,
    >)
        requires
            old(store).wf(),
        ensures
            final(store).wf(),
            deleted::<Agent>(*old(store), id_uuid_or_owner, *final(store), out),
    {
        count_response(store.delete_agents(&id_uuid_or_owner))
    }
}

} // verus!
