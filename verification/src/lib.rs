//! Core of an embeddable scripting runtime: module resolution and caching,
//! the capability registry, execution contexts, and the channels between a
//! script and the instances it spawns, together with the decisions of the
//! capabilities that the host offers to scripts.
//!
//! The library never evaluates source, reads a file or starts a thread. The
//! host does that, and hands the library plain values: paths, kinds of
//! values, what the disk answered. What the library decides is stated in
//! contracts over sequences of characters and proved.

pub mod text;
pub mod path;
pub mod value;
pub mod colors;
pub mod registry;
pub mod resolver;
pub mod cache;
pub mod context;
pub mod channel;
pub mod spawn;
pub mod report;
pub mod output;
pub mod globals;
pub mod cli;
pub mod files;
pub mod codec;
pub mod json;
pub mod crypt;
pub mod datetime;
pub mod process;
pub mod environment;
pub mod shell;
pub mod testing;
pub mod messages;
