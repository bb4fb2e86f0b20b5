//! The execution core of a shell-like command runner: pipelines of external
//! commands and in-process builtins, with per-stage `NAME=VALUE` environment
//! assignments, ordered I/O redirections, pipe-failure semantics, and a
//! working directory local to a group of pipelines.
//!
//! These modules hold the decisions and the data of the core — argument
//! classification, redirect planning with duplicate-current-target
//! semantics, debug rendering, the waiting order and the verdict over stage
//! statuses — each with a proved contract. The process and file work that
//! carries the plans out belongs to the unverified driver around the
//! library.

pub mod cmd;
pub mod env;
pub mod errors;
pub mod group;
pub mod pipeline;
pub mod redirect;
pub mod strutil;
pub mod waiter;
