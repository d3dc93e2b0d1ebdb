//! Generates the source files of a web service from a feature selection:
//! handlers and routers per resource, authentication routes and guard, the
//! entry point, migration scripts, and the list of crates the service needs.
//! Every generated text is stated exactly over the resource names and flags.

pub mod auth;
pub mod config;
pub mod deps;
pub mod entry;
pub mod generate;
pub mod handlers;
pub mod laws;
pub mod migration;
pub mod naming;
pub mod queries;
pub mod render;
pub mod routes;
pub mod snippets;
