//! The policy state as mathematics, and what each call does to it.

use vstd::prelude::*;
use crate::engine::{decision, Approval};
use crate::error::Error;
use crate::identity::Identity;
use crate::limits::{Limits, DEFAULT_BALANCED_LIMIT, DEFAULT_SAFE_LIMIT};
use crate::mode::SafetyMode;
use crate::policy::mode_in;

verus! {

/// Everything the engine persists: the administrator, the two ceilings, the
/// approved targets and the mode that each identity has chosen.
pub struct VaultState {
    /// The administrator, once the vault is initialized.
    pub admin: Option<Identity>,
    /// The ceilings of the two bounded modes.
    pub limits: Limits,
    /// The approved targets.
    pub allowed: Set<Identity>,
    /// The modes that identities have chosen for themselves.
    pub modes: Map<Identity, SafetyMode>,
}

/// A call of one of the engine's operations, with its caller.
pub enum Call {
    /// The caller chooses the mode that `mode` stands for.
    SetMode { caller: Identity, mode: u8 },
    /// The caller asks to move `amount` to `target`.
    ExecuteAction { caller: Identity, target: Identity, amount: nat },
    /// The caller asks to approve `target`.
    AddAllowedContract { caller: Identity, target: Identity },
    /// The caller asks to withdraw the approval of `target`.
    RemoveAllowedContract { caller: Identity, target: Identity },
    /// The caller asks to overwrite the ceilings that are given.
    UpdateLimits { caller: Identity, safe: Option<nat>, balanced: Option<nat> },
}

impl Call {
    /// Who makes the call.
    pub open spec fn caller(self) -> Identity {
        match self {
            Call::SetMode { caller, .. } => caller,
            Call::ExecuteAction { caller, .. } => caller,
            Call::AddAllowedContract { caller, .. } => caller,
            Call::RemoveAllowedContract { caller, .. } => caller,
            Call::UpdateLimits { caller, .. } => caller,
        }
    }

    /// Whether the call is one that only the administrator may make.
    pub open spec fn admin_only(self) -> bool {
        self is AddAllowedContract || self is RemoveAllowedContract || self is UpdateLimits
    }
}

impl VaultState {
    /// The state right after initialization by `caller`: `caller` is the
    /// administrator, both ceilings are set to their defaults, no target is
    /// approved and no identity has chosen a mode.
    pub open spec fn initial(caller: Identity) -> VaultState {
        VaultState {
            admin: Some(caller),
            limits: Limits {
                safe: Some(DEFAULT_SAFE_LIMIT as nat),
                balanced: Some(DEFAULT_BALANCED_LIMIT as nat),
            },
            allowed: Set::empty(),
            modes: Map::empty(),
        }
    }

    /// Whether `caller` is the administrator.
    pub open spec fn is_admin(self, caller: Identity) -> bool {
        self.admin == Some(caller)
    }

    /// The mode in force for `user`.
    pub open spec fn mode_of(self, user: Identity) -> SafetyMode {
        mode_in(self.modes, user)
    }

    /// The engine's decision on an action of `amount` by `caller` towards
    /// `target`.
    pub open spec fn decide(self, caller: Identity, target: Identity, amount: nat) -> Result<
        Approval,
        Error,
    > {
        decision(
            self.mode_of(caller).spec_to_u8(),
            self.allowed.contains(target),
            amount,
            self.limits.safe_limit(),
            self.limits.balanced_limit(),
        )
    }

    /// The error with which `call` is refused in this state, or `None` where
    /// it succeeds.
    pub open spec fn refusal(self, call: Call) -> Option<Error> {
        match call {
            Call::SetMode { mode, .. } => {
                if mode > 2 {
                    Some(Error::InvalidMode)
                } else {
                    None
                }
            },
            Call::ExecuteAction { caller, target, amount } => {
                match self.decide(caller, target, amount) {
                    Ok(_) => None,
                    Err(error) => Some(error),
                }
            },
            _ => {
                if self.is_admin(call.caller()) {
                    None
                } else {
                    Some(Error::Unauthorized)
                }
            },
        }
    }

    /// The state that `call` leaves behind. A call that is refused leaves the
    /// state as it found it.
    pub open spec fn next(self, call: Call) -> VaultState {
        if self.refusal(call) is Some {
            self
        } else {
            match call {
                Call::SetMode { caller, mode } => VaultState {
                    modes: self.modes.insert(caller, SafetyMode::spec_from_u8(mode).unwrap()),
                    ..self
                },
                Call::ExecuteAction { .. } => self,
                Call::AddAllowedContract { target, .. } => VaultState {
                    allowed: self.allowed.insert(target),
                    ..self
                },
                Call::RemoveAllowedContract { target, .. } => VaultState {
                    allowed: self.allowed.remove(target),
                    ..self
                },
                Call::UpdateLimits { safe, balanced, .. } => VaultState {
                    limits: self.limits.updated(safe, balanced),
                    ..self
                },
            }
        }
    }

    /// The state after a sequence of calls, made one after the other.
    pub open spec fn run(self, calls: Seq<Call>) -> VaultState
        decreases calls.len(),
    {
        if calls.len() == 0 {
            self
        } else {
            self.run(calls.drop_last()).next(calls.last())
        }
    }
}

} // verus!
