//! The repositories: for each entity its row, the shape of an insert and of a
//! partial update, and its five operations on the store.

pub mod agents;
pub mod helpers;
pub mod permission_membership;
pub mod permissions;
pub mod routers;
pub mod tunnels;
pub mod users;
