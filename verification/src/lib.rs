//! Verified core of a NotebookLM command-line tool and local control service:
//! the command and tool catalogue, request checks, the scripts sent to the
//! browser, the decisions taken on what the browser answers, and the text rules.
use vstd::prelude::*;

pub mod commands;
pub mod db;
pub mod discovery;
pub mod embedded;
pub mod error;
pub mod json;
pub mod manifest;
pub mod models;
pub mod notebooklm;
pub mod preview;
pub mod server;
pub mod text;

verus! {

} // verus!
