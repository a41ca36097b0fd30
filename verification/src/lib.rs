//! A persistent to-do store: task records with a completion flag, kept in a
//! single embedded SQLite database file, with list, add, toggle and delete
//! operations whose effect on the table is stated and verified.

pub mod model;
mod sqlite;
pub mod store;
