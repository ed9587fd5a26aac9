//! Helpers that the handlers and repositories share.

pub mod db;
