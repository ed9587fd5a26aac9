//! A configuration service for network tunnels: agents, routers, tunnels,
//! users, permissions and permission memberships, each with the same five
//! operations (list, get, add, update, delete) over a relational store.

pub mod client;
pub mod constraints;
pub mod api;
pub mod error;
pub mod handlers;
pub mod helpers;
pub mod laws;
pub mod mapping;
pub mod response;
pub mod statement;
pub mod storage;
pub mod store;
pub mod table;
pub mod text;
