//! A small task-tracking store: the `Todo` record, the repository contract,
//! and an in-memory backend, with every operation proved against an abstract
//! model of the collection.

pub mod entity;
pub mod error;
pub mod model;
pub mod history;
pub mod repositories;
pub mod memory;
pub mod adapter;
pub mod database;
