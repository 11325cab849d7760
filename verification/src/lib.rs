//! A ledger for two-player, turn-based chess games: challenges, games with a
//! per-move budget of clock ticks, ratings, and paginated listings.

pub mod challenge;
pub mod contract;
pub mod error;
pub mod game;
pub mod ledger;
pub mod merge;
pub mod query;
pub mod rating;
pub mod rules;
pub mod ratings;
