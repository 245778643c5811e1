//! A pooled-asset vault: share accounting, deposit and withdrawal caps, a
//! strategy registry with oracle-driven rebalancing, and guardian governance.
//!
//! Everything here is pure state and decisions. The host that runs the vault
//! supplies authenticated callers, the clock and strategy balances, and carries
//! out the token transfers and strategy calls that the vault asks for.

pub mod types;
pub mod shares;
pub mod caps;
pub mod oracle;
pub mod strategy;
pub mod governance;
pub mod model;
pub mod vault;
pub mod guarantees;
