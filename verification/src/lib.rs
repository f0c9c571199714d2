//! Transaction queue service logic: request validation, account tiers,
//! sliding-window rate limiting, priority queue bookkeeping and the
//! submission workflow, each with its contract.

pub mod account;
pub mod queue;
pub mod rate_limit;
pub mod submit;
pub mod text;
pub mod validation;
