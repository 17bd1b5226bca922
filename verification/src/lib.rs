//! Keeps a set of DNS address records pointed at the machine's public IP
//! address: the rules of the first reconciliation against the remote record
//! store, of the watch that follows it, and of how repeated failures are
//! reported.
//!
//! Nothing here performs a request, sleeps or writes a log line. The
//! reconciliation and the watch are state machines: each says which request
//! is pending, the caller performs it and hands back what came of it, and the
//! machine answers with its next state and the lines to log.
//!
//! - [`plan`]: which records need nothing, which an update, which names must
//!   be created.
//! - [`reconcile`]: the first reconciliation, from the listing of the store to
//!   the identifiers to watch.
//! - [`watch`]: the cycles that send the records after a changed address.
//! - [`report`]: the lines to log, and the grouping of repeated failures.
//! - [`client`]: what the answers of the store and of the address lookup mean.
//! - [`configuration`], [`interval`], [`logging`]: the settings and what
//!   follows from them.
//! - [`types`], [`text`]: the values exchanged with the store; numbers as text.

pub mod client;
pub mod configuration;
pub mod interval;
pub mod logging;
pub mod plan;
pub mod reconcile;
pub mod report;
pub mod text;
pub mod types;
pub mod watch;
