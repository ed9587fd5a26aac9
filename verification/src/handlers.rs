//! The handlers: one module for each entity, each with the five calls of the
//! service. A handler checks the shape of a request, calls the repository
//! and hands its answer on.

pub mod agents;
pub mod permission_membership;
pub mod permissions;
pub mod routers;
pub mod tunnels;
pub mod users;
