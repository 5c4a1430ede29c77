//! A minimal task tracker: a flat list of todo items (title, description,
//! completion progress) persisted in a SQLite table and manipulated through
//! five operations: create, list, fetch by id, update, delete.
//!
//! `model` states what the store holds in mathematical terms and proves the
//! laws the operations obey; `task` defines the one entity; `db` owns the
//! connection to the backing store and exposes the verified operations.

pub mod db;
pub mod model;
pub mod task;
