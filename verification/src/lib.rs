//! A per-identity transaction authorization policy engine.
//!
//! Before a transfer of value to a target identity may run, the engine decides
//! whether to allow it. The decision rests on the safety mode that the caller
//! has chosen for itself, on a spending limit per mode, and on a list of
//! approved targets that only the administrator may change.

pub mod allowlist;
pub mod amount;
pub mod engine;
pub mod error;
pub mod identity;
pub mod laws;
pub mod layout;
pub mod limits;
pub mod mode;
pub mod operations;
pub mod policy;
pub mod state;
pub mod vault;

pub use allowlist::Allowlist;
pub use amount::Amount;
pub use engine::{authorize, Approval};
pub use error::Error;
pub use identity::{Identity, IdentityKind};
pub use layout::user_mode_key;
pub use limits::{LimitTable, DEFAULT_BALANCED_LIMIT, DEFAULT_SAFE_LIMIT};
pub use mode::SafetyMode;
pub use operations::{
    add_allowed_contract, execute_action, initialize, remove_allowed_contract, set_mode,
    update_limits,
};
pub use policy::UserPolicy;
pub use state::{Call, VaultState};
pub use vault::Vault;
