//! An extension runtime for small command-driven applications: a registry of
//! typed singleton resources, a command router, a relational row layer and a
//! tab arena for terminal sessions.
pub mod billing;
pub mod command;
pub mod context;
pub mod db;
pub mod db_commands;
pub mod db_tabs;
pub mod error;
pub mod events;
pub mod gui;
pub mod keys;
pub mod parser;
pub mod registry;
pub mod row;
pub mod schema;
pub mod sql;
pub mod standard;
pub mod tabs;
pub mod text;
pub mod training;
pub mod tui;
