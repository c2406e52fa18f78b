//! Verified core of the Pattern Pursuit game backend: storage keys, session
//! tokens, authentication decisions, leaderboard scoring and OAuth plumbing.
use vstd::prelude::*;

pub mod auth;
pub mod config;
pub mod decimal;
pub mod keys;
pub mod model;
pub mod oauth;
pub mod session;
pub mod token;
pub mod leaderboard;

verus! {

} // verus!
