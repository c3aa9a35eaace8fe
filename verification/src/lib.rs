//! Accounting and decision core of a tokenized pension/treasury protocol.
//!
//! The crate tracks participant balances under lock-up rules, computes
//! deposit/withdrawal fees and penalties, derives risk-profile-based target
//! asset allocations, and decides when and how a multi-asset portfolio is
//! rebalanced toward those targets.
//!
//! Every component is written as explicit state passed through verified
//! transition functions. The surrounding runtime (caller authentication,
//! storage of the state records, and actual token movement) is a thin
//! unverified shell around this core; it hands the core plain values
//! (amounts, identities as numeric ids, timestamps) and persists the
//! records the core returns.

pub mod assets;
pub mod errors;
pub mod fees;
pub mod fund;
pub mod math;
pub mod oracle;
pub mod rebalance;
pub mod risk;
