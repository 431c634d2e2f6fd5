//! Template and source cache engine of a local project-template manager.
//!
//! The crate holds the data model of installed templates, sources and indexed
//! content, the identity digest, the placeholder scanner, the cache store and
//! the decision logic of the install, import, search and project pipelines.
//! Every executable function carries a contract that Verus proves.
//!
//! * [`db`] describes what a cache store holds ([`db::local_db::CacheView`])
//!   and what it offers ([`db::local_db::TemplateDb`]), and has a store that
//!   keeps everything in memory ([`db::memory::MemoryCache`]).
//! * [`commands`] has one module per command. A command that needs the
//!   network or the file system is a sequence of steps: each step takes the
//!   state that the command is in and what happened outside, and returns the
//!   next state and what is to be done outside next. The program around the
//!   library performs that and comes back with the next event.
//! * [`template`] derives names and paths, resolves the language of a
//!   template, finds the placeholders in its files and renders them.
//! * [`util`] has digests, texts, maps of texts, planned paths and
//!   timestamps.

pub mod commands;
pub mod config;
pub mod db;
pub mod error;
pub mod state;
pub mod template;
pub mod util;
