//! A boundary layer that probes and administers external services on behalf
//! of a calling application: it runs shell-level scripts, verifies and
//! manipulates relational-database connectivity (including creating and
//! renaming databases), and verifies key-value-store connectivity.
//!
//! Every operation performs exactly one unit of work against its backend and
//! reports through a uniform contract: process exit codes, SQL driver errors
//! and network-level failures are all normalized into a stable shape before
//! they reach the caller. The pure halves of the operations — building
//! search paths, connection URLs and statement text, and mapping outcomes
//! through the error taxonomy — live here with their contracts; spawning
//! processes, opening connections and touching the filesystem are the
//! embedding caller's part.
use vstd::prelude::*;

pub mod admin;
pub mod envjson;
pub mod files;
pub mod kv;
pub mod response;
pub mod runner;
pub mod sql;
mod text;

verus! {

} // verus!
