//! The vault: the policy state that every operation is handed.

use vstd::prelude::*;
use crate::allowlist::Allowlist;
use crate::amount::Amount;
use crate::error::Error;
use crate::identity::Identity;
use crate::limits::LimitTable;
use crate::mode::SafetyMode;
use crate::policy::UserPolicy;
use crate::state::VaultState;

verus! {

/// The persisted policy state. It changes only through the operations of
/// this crate.
#[derive(Debug)]
pub struct Vault {
    pub(crate) admin: Option<Identity>,
    pub(crate) limits: LimitTable,
    pub(crate) allowlist: Allowlist,
    pub(crate) policy: UserPolicy,
}

impl View for Vault {
    type V = VaultState;

    /// The state that the vault holds.
    open(crate) spec fn view(&self) -> VaultState {
        VaultState {
            admin: self.admin,
            limits: self.limits@,
            allowed: self.allowlist@,
            modes: self.policy@,
        }
    }
}

impl Vault {
    /// The vault that holds the given parts, as they were read back from
    /// where they are persisted. `admin` is `None` where no administrator was
    /// ever recorded.
    pub fn restore(
        admin: Option<Identity>,
        limits: LimitTable,
        allowlist: Allowlist,
        policy: UserPolicy,
    ) -> (vault: Vault)
        ensures
            vault@ == (VaultState {
                admin,
                limits: limits@,
                allowed: allowlist@,
                modes: policy@,
            }),
    {
        Vault { admin, limits, allowlist, policy }
    }

    /// The administrator as it is recorded, if one is.
    pub fn admin(&self) -> (admin: Option<Identity>)
        ensures
            admin == self@.admin,
    {
        self.admin
    }

    /// The two ceilings as they are recorded.
    pub fn limits(&self) -> (limits: &LimitTable)
        ensures
            limits@ == self@.limits,
    {
        &self.limits
    }

    /// The approved targets.
    pub fn allowlist(&self) -> (allowlist: &Allowlist)
        ensures
            allowlist@ == self@.allowed,
    {
        &self.allowlist
    }

    /// The modes that identities have chosen.
    pub fn policy(&self) -> (policy: &UserPolicy)
        ensures
            policy@ == self@.modes,
    {
        &self.policy
    }

    /// The administrator. Fails with `Unauthorized` where none is recorded.
    pub fn get_admin(&self) -> (admin: Result<Identity, Error>)
        ensures
            admin == match self@.admin {
                Some(identity) => Ok::<Identity, Error>(identity),
                None => Err::<Identity, Error>(Error::Unauthorized),
            },
    {
        match self.admin {
            Some(identity) => Ok(identity),
            None => Err(Error::Unauthorized),
        }
    }

    /// Whether `caller` is the administrator.
    pub fn is_admin(&self, caller: &Identity) -> (yes: bool)
        ensures
            yes == self@.is_admin(*caller),
    {
        match self.admin {
            Some(identity) => identity == *caller,
            None => false,
        }
    }

    /// Succeeds for the administrator and fails with `Unauthorized` for
    /// everyone else.
    pub fn require_admin(&self, caller: &Identity) -> (outcome: Result<(), Error>)
        ensures
            outcome == if self@.is_admin(*caller) {
                Ok::<(), Error>(())
            } else {
                Err::<(), Error>(Error::Unauthorized)
            },
    {
        if self.is_admin(caller) {
            Ok(())
        } else {
            Err(Error::Unauthorized)
        }
    }

    /// The mode in force for `user`: the one it chose last, or `Safe` if it
    /// never chose.
    pub fn get_mode(&self, user: &Identity) -> (mode: SafetyMode)
        ensures
            mode == self@.mode_of(*user),
            !self@.modes.contains_key(*user) ==> mode == SafetyMode::Safe,
    {
        self.policy.get_mode(user)
    }

    /// Whether `target` is an approved target.
    pub fn is_allowed(&self, target: &Identity) -> (listed: bool)
        ensures
            listed == self@.allowed.contains(*target),
    {
        self.allowlist.contains(target)
    }

    /// The ceiling of `Safe` mode: the one set, or 1000.
    pub fn get_safe_limit(&self) -> (limit: Amount)
        ensures
            limit@ == self@.limits.safe_limit(),
    {
        self.limits.get_safe_limit()
    }

    /// The ceiling of `Balanced` mode: the one set, or 10000.
    pub fn get_balanced_limit(&self) -> (limit: Amount)
        ensures
            limit@ == self@.limits.balanced_limit(),
    {
        self.limits.get_balanced_limit()
    }
}

} // verus!
