//! Content-policy enforcement for a building-game server: detects owners of
//! prohibited small-scale bricks in a world snapshot, escalates per-owner
//! discipline (warn, clear, temporary and permanent exclusion) through a
//! persistent ledger, rebuilds a filtered snapshot that restores a cleared
//! owner's legitimate bricks, and garbage-collects stale grace timers.

pub mod admin;
mod clock;
pub mod engine;
pub mod laws;
pub mod ledger;
pub mod policy;
pub mod snapshot;
