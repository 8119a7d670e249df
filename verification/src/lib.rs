//! Conventional commits, issue branches and merge-request listings for a
//! thin wrapper around git: the decisions, with their contracts.

pub mod cli;
pub mod commit;
pub mod http;
pub mod issue;
pub mod json;
pub mod mrs;
pub mod tag;
pub mod text;
pub mod update;
