//! Fork rules, state deltas and appendable chain segments of an
//! Ethereum-style execution client, with their contracts.
//!
//! - [`fork_condition`], [`hardfork`], [`chain_spec`], [`forkid`]: when each
//!   hardfork activates, and the fork ids derived from that.
//! - [`validation`]: the consensus rules a block is checked against.
//! - [`state`]: the per-block state delta of a run of blocks.
//! - [`segment`]: chain segments and the validate-then-execute pipeline.
//! - [`chain_id`], [`block`], [`primitives`], [`text`]: the values these
//!   work on.
pub mod primitives;
pub mod fork_condition;
pub mod text;
pub mod hardfork;
pub mod chain_id;
pub mod block;
pub mod forkid;
pub mod chain_spec;
pub mod validation;
pub mod state;
pub mod segment;
