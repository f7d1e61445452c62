//! A layered todo backend: entity and patch model, repository port with an
//! in-memory implementation, pass-through service, SQL statement construction
//! for a relational adapter, and HTTP status mapping.

pub mod config;
pub mod error;
pub mod http;
pub mod memory_repository;
pub mod repository;
pub mod service;
pub mod sql;
pub mod todo;

use vstd::prelude::*;

verus! {

} // verus!
