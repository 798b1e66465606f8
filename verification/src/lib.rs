//! Verified core of a pegged token: an oracle price feed that accepts only
//! ordered, bounded and slowly moving prices, and a controller that sizes the
//! mint or buyback which brings a pool back to the reported price.

pub mod account;
pub mod events;
pub mod math;
pub mod oracle;
pub mod peg;
pub mod rebalance;
pub mod rebalancer;
pub mod swap;
pub mod token;
