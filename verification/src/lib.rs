//! Token-weighted governance: proposals, ballots and tallies, and the rules
//! by which a proposal is opened, voted on and paid out.

pub mod governor;
pub mod lifecycle;
pub mod model;
pub mod storage;
pub mod types;
pub mod weight;
