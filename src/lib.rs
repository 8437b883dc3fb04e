//! A local, multi-writer knowledge store: spaces, pages, labels and links kept
//! in SQLite, a version-checked mutation protocol, the navigation state machine
//! of the terminal browser, and the decisions of its edit sessions.

pub mod error;
pub mod validation;
pub mod text;
pub mod models;
pub mod sql;
pub mod db;
pub mod repo;
pub mod search;
pub mod output;
pub mod app;
pub mod event;
pub mod edit;
