//! The operations that the engine exposes. Each one is handed the vault and
//! the identity of its caller, and either completes or fails with one error
//! and no change to the vault.

use vstd::prelude::*;
use crate::allowlist::Allowlist;
use crate::amount::Amount;
use crate::engine::{authorize, Approval};
use crate::error::Error;
use crate::identity::Identity;
use crate::limits::{optional_value, LimitTable};
use crate::mode::SafetyMode;
use crate::policy::UserPolicy;
use crate::state::{Call, VaultState};
use crate::vault::Vault;

verus! {

/// What a call returns that carries no value: `Ok` where the call is not
/// refused, and the refusal otherwise.
pub open spec fn completes(refusal: Option<Error>) -> Result<(), Error> {
    match refusal {
        Some(error) => Err(error),
        None => Ok(()),
    }
}

/// Creates the vault. The caller becomes the administrator, the ceilings are
/// set to 1000 and 10000, and the allowlist starts empty.
///
/// Initializing again would make a new vault with a new administrator: it is
/// for the host to call this once.
pub fn initialize(caller: Identity) -> (vault: Vault)
    ensures
        vault@ == VaultState::initial(caller),
{
    Vault {
        admin: Some(caller),
        limits: LimitTable::defaults(),
        allowlist: Allowlist::new(),
        policy: UserPolicy::new(),
    }
}

/// The caller chooses its own mode. `mode` must stand for a mode, that is be
/// 0, 1 or 2; any other value fails with `InvalidMode` and leaves the earlier
/// choice in place.
pub fn set_mode(vault: &mut Vault, caller: &Identity, mode: u8) -> (outcome: Result<(), Error>)
    ensures
        outcome == completes(old(vault)@.refusal(Call::SetMode { caller: *caller, mode })),
        final(vault)@ == old(vault)@.next(Call::SetMode { caller: *caller, mode }),
        mode > 2 ==> outcome == Err::<(), Error>(Error::InvalidMode) && final(vault)@ == old(
            vault,
        )@,
        mode <= 2 ==> outcome is Ok && final(vault)@.mode_of(*caller).spec_to_u8() == mode,
{
    vault.policy.record(*caller, mode)
}

/// Decides whether the caller may move `amount` to `target`, by the rules of
/// the caller's mode. The vault is only read.
///
/// In `Safe` mode the action passes exactly when the target is approved and
/// the amount is within the safe limit, and an unapproved target is reported
/// before an excessive amount. In `Balanced` mode it passes exactly when the
/// amount is within the balanced limit. In `Degenerate` mode it always
/// passes.
pub fn execute_action(vault: &Vault, caller: &Identity, target: &Identity, amount: &Amount) -> (outcome:
    Result<Approval, Error>)
    ensures
        outcome == vault@.decide(*caller, *target, amount@),
        outcome is Ok <==> vault@.refusal(
            Call::ExecuteAction { caller: *caller, target: *target, amount: amount@ },
        ) is None,
        vault@.mode_of(*caller) == SafetyMode::Safe ==> (outcome is Ok <==> vault@.allowed.contains(
            *target,
        ) && amount@ <= vault@.limits.safe_limit()),
        vault@.mode_of(*caller) == SafetyMode::Safe && !vault@.allowed.contains(*target)
            ==> outcome == Err::<Approval, Error>(Error::ContractNotAllowed),
        vault@.mode_of(*caller) == SafetyMode::Balanced ==> (outcome is Ok <==> amount@
            <= vault@.limits.balanced_limit()),
        vault@.mode_of(*caller) == SafetyMode::Degenerate ==> outcome is Ok,
{
    let mode = vault.get_mode(caller);
    authorize(mode.to_u8(), target, amount, &vault.allowlist, &vault.limits)
}

/// The administrator approves `target`. Approving a target that is approved
/// already changes nothing.
pub fn add_allowed_contract(vault: &mut Vault, caller: &Identity, target: Identity) -> (outcome:
    Result<(), Error>)
    ensures
        outcome == completes(
            old(vault)@.refusal(Call::AddAllowedContract { caller: *caller, target }),
        ),
        final(vault)@ == old(vault)@.next(Call::AddAllowedContract { caller: *caller, target }),
        outcome is Ok <==> old(vault)@.is_admin(*caller),
        outcome is Ok ==> final(vault)@.allowed.contains(target),
        outcome is Err ==> outcome == Err::<(), Error>(Error::Unauthorized) && final(vault)@
            == old(vault)@,
{
    if let Err(error) = vault.require_admin(caller) {
        return Err(error);
    }
    vault.allowlist.insert(target);
    Ok(())
}

/// The administrator withdraws the approval of `target`. Withdrawing an
/// approval that was never given changes nothing.
pub fn remove_allowed_contract(vault: &mut Vault, caller: &Identity, target: &Identity) -> (outcome:
    Result<(), Error>)
    ensures
        outcome == completes(
            old(vault)@.refusal(Call::RemoveAllowedContract { caller: *caller, target: *target }),
        ),
        final(vault)@ == old(vault)@.next(
            Call::RemoveAllowedContract { caller: *caller, target: *target },
        ),
        outcome is Ok <==> old(vault)@.is_admin(*caller),
        outcome is Ok ==> !final(vault)@.allowed.contains(*target),
        outcome is Err ==> outcome == Err::<(), Error>(Error::Unauthorized) && final(vault)@
            == old(vault)@,
{
    if let Err(error) = vault.require_admin(caller) {
        return Err(error);
    }
    vault.allowlist.remove(target);
    Ok(())
}

/// The administrator overwrites the ceilings that are given. A ceiling that
/// is left out stays as it was; any amount is accepted as a ceiling.
pub fn update_limits(
    vault: &mut Vault,
    caller: &Identity,
    safe: Option<Amount>,
    balanced: Option<Amount>,
) -> (outcome: Result<(), Error>)
    ensures
        outcome == completes(
            old(vault)@.refusal(
                Call::UpdateLimits {
                    caller: *caller,
                    safe: optional_value(safe),
                    balanced: optional_value(balanced),
                },
            ),
        ),
        final(vault)@ == old(vault)@.next(
            Call::UpdateLimits {
                caller: *caller,
                safe: optional_value(safe),
                balanced: optional_value(balanced),
            },
        ),
        outcome is Ok <==> old(vault)@.is_admin(*caller),
        outcome is Err ==> outcome == Err::<(), Error>(Error::Unauthorized) && final(vault)@
            == old(vault)@,
{
    if let Err(error) = vault.require_admin(caller) {
        return Err(error);
    }
    vault.limits.set_limits(safe, balanced);
    Ok(())
}

} // verus!
