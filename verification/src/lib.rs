//! A node-side library for fetching one content-addressed value from a
//! distributed hash table: it validates the content identifier, plans the
//! routing seeds, drives the lookup/retry state machine, resolves where the
//! value is stored, and decides how the value is shared afterwards.
//!
//! The library performs no I/O. A host program executes the commands that
//! the pipeline issues and reports back what came of them.
//!
//! - [`key`]: content identifiers and the lookup key derived from them.
//! - [`bootstrap`]: the well-known peers that seed the routing table.
//! - [`startup`]: what is set up before the first lookup.
//! - [`retrieval`], [`retrieval_laws`]: the lookup state machine and what
//!   holds of all its runs.
//! - [`output`]: where found content is stored.
//! - [`sharing`]: how stored content is shared, and whether the node stays.
//! - [`pipeline`], [`pipeline_laws`]: the whole run as one state machine.
//! - [`policy`]: which incidents end a run and which are absorbed.
//! - [`web`]: the registry of shared content and its pages.
//! - [`text`], [`bytes`]: small helpers.

pub mod bootstrap;
pub mod bytes;
pub mod key;
pub mod output;
pub mod pipeline;
pub mod pipeline_laws;
pub mod policy;
pub mod retrieval;
pub mod retrieval_laws;
pub mod sharing;
pub mod startup;
pub mod text;
pub mod web;
