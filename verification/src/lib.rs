//! Version tracking for a deployed contract package: what changed between two
//! versions, and the chain-backed cache that remembers the answer.
//!
//! The pieces, leaves first:
//!
//! - [`schema`]: a version of a package, and the difference between two.
//! - [`index`]: entries kept by name, the way both sides of a comparison are
//!   looked at.
//! - [`diff`]: the comparison itself.
//! - [`key`]: the key under which a difference is cached.
//! - [`reader`]: reading a cached difference from the store on chain.
//! - [`writer`]: putting a difference into a transaction for the store.
//! - [`resolver`]: cache first, comparison on a miss, write-back afterwards.
//! - [`observability`]: the store itself, as a table with an owner.
//!
//! Around them: [`network`] and [`config`] for where to ask, [`api`] for
//! registering a package, [`explorer`] for the block explorer's answers,
//! [`text`] for the handling of names and numbers, and [`outside`] for what is
//! taken from other crates without proof.
//!
//! Nothing in this crate talks to a node, a database or a clock's owner: the
//! functions that stand for a conversation take what was answered and say what
//! to ask next.

pub mod api;
pub mod config;
pub mod diff;
pub mod explorer;
pub mod index;
pub mod key;
pub mod network;
pub mod observability;
pub mod outside;
pub mod reader;
pub mod resolver;
pub mod schema;
pub mod text;
pub mod writer;
