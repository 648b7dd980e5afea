//! A local, encrypted, schema-versioned data store, driven through a dynamic
//! SQL proxy.
//!
//! The library holds the decisions: what to bind, how to decode, in which
//! order migrations run, when a transaction commits, when the registry may be
//! initialized. The engine and the file system stay with the caller. Where a
//! decision alternates with their work, the library gives a machine: it names
//! the next thing to do, the caller does it and hands the answer back.
//!
//! - [`value`]: the dynamic value model, parameter binding, row re-encoding.
//! - [`transaction`]: one all-or-nothing transaction and what it leaves durable.
//! - [`discovery`], [`migration`], [`run`]: the migration engine.
//! - [`database`], [`domain`], [`commands`]: the store, the registry, its lifecycle.
//! - [`proxy`]: single statements and batches against the installed database.
//! - [`error`], [`text`], [`encoding`]: errors and their messages, text helpers,
//!   base64.

pub mod commands;
pub mod database;
pub mod discovery;
pub mod domain;
pub mod encoding;
pub mod error;
pub mod migration;
pub mod proxy;
pub mod run;
pub mod text;
pub mod transaction;
pub mod value;
