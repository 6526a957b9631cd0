//! A personal checklist manager: named checklists of checkable items, kept in
//! a local encrypted database.
//!
//! This crate holds the verified core: the entity model (checklists and
//! items), the store semantics every storage operation must honour, the error
//! taxonomy, and the pure decision logic of the command-line front end. The
//! asynchronous database engine and all terminal plumbing live outside the
//! library and hand it plain values.

pub mod boundary;
pub mod checklist;
pub mod cli;
pub mod error;
pub mod ids;
pub mod item;
pub mod laws;
pub mod model;
pub mod store;

pub use checklist::Checklist;
pub use error::Error;
pub use ids::ChecklistId;
pub use ids::ItemId;
pub use item::Item;
pub use store::Db;
