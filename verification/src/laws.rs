//! What the programs are for, stated over what goes in and what comes out.
//!
//! The laws speak of requests and replies, of manifests, of commands and of rendered text, and of
//! what a call comes back with.

pub mod calls;
pub mod creation;
pub mod documents;
pub mod doubles;
pub mod export;
pub mod failover;
pub mod manifests;
pub mod messages;
pub mod mounting;
pub mod records;
pub mod sharing;
pub mod volume;
pub mod words;
