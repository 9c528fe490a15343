//! A commit-reveal voting protocol.
//!
//! Members of a named governance organize proposals, vote on them without
//! revealing their choice until a deadline, and have tallies recorded with
//! double-action prevention. The core is the protocol's state machine:
//! governance and membership registration, the proposal lifecycle, timed
//! commit and reveal windows, hash-commitment verification, and vote
//! tallying.
//!
//! The crate also carries a few small verified utility types that grew up
//! beside the protocol: a playlist player, a postfix interpreter, a train
//! station mediator, and friends.

pub mod command;
pub mod commitment;
pub mod config;
pub mod constructors;
pub mod db;
pub mod enums;
pub mod errors;
pub mod interpreter;
pub mod laws;
pub mod mediator;
pub mod model;
pub mod model_lemmas;
pub mod player;
pub mod singleton;
pub mod strategy;
pub mod system;
pub mod vowels;
