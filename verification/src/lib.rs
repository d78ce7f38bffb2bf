//! EC2 instance management: what the command line tool decides, says and asks the service for.

pub mod action;
pub mod commands;
pub mod instances;
pub mod json;
pub mod laws;
pub mod render;
pub mod session;
pub mod states;
pub mod table;
pub mod text;
