//! Runtime support and expansion rules for async/await syntax built on
//! generators: the state machines that turn generator steps into future and
//! stream polls, and the decisions the `#[async]` attribute makes when it
//! rewrites a function.

pub mod expand;
pub mod rt;
