//! Discovery, filtering and controlled termination of processes that listen
//! on a configured set of TCP ports.

pub mod config;
pub mod text;
pub mod process;
pub mod listing;
pub mod ignore;
pub mod discovery;
pub mod terminator;
pub mod resolver;
pub mod coordinator;
