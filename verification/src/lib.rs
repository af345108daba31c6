//! Match setup for a small competitive-gaming community: a queue of players,
//! a ready check, a map vote, a draft of two teams, a side pick and the
//! request that launches the game server.
//!
//! Everything here is plain data and verified logic. Chat transport, HTTP and
//! persistence sit around this crate and hand it plain values.

pub mod autodraft;
pub mod config;
pub mod data;
pub mod draft;
pub mod endpoints;
pub mod error;
pub mod events;
pub mod launch;
pub mod laws;
pub mod queue;
pub mod registry;
pub mod schedule;
pub mod seqs;
pub mod setup;
pub mod state;
pub mod stats;
pub mod steam;
mod tables;
pub mod text;
pub mod votes;
