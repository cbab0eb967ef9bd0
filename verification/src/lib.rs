//! Mirrors the changes that the blocks of a Bitcoin chain make to the set of
//! unspent outputs.
//!
//! The library holds the rules: how a locking script is classified
//! ([`script`]) and turned into an address ([`address`]), what a change
//! record holds ([`record`]), how a block becomes an ordered sequence of
//! records ([`transform`], [`outcome`]), how the height cursor moves from
//! tick to tick ([`indexer`]), and when a delivery counts as made
//! ([`delivery`]). It does no input or output: the program around it reads
//! blocks from a node and posts the updates.

pub mod address;
pub mod block;
pub mod delivery;
pub mod error;
pub mod indexer;
pub mod outcome;
pub mod record;
pub mod script;
pub mod text;
pub mod transform;
pub mod update;
