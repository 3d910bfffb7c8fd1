//! Project catalogue for a task tracker: reconciles a list of named projects
//! with the tracker's live tasks and lays the result out as tables.

pub mod command;
pub mod config;
pub mod grid;
pub mod order;
pub mod parser;
pub mod project;
pub mod select;
pub mod table;
pub mod text;
