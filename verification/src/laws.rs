//! What holds of the engine across calls.

use vstd::prelude::*;
use crate::error::Error;
use crate::identity::Identity;
use crate::mode::SafetyMode;
use crate::state::{Call, VaultState};

verus! {

/// Whether `call` is `user` choosing a mode, validly or not.
pub open spec fn chooses_mode(call: Call, user: Identity) -> bool {
    call is SetMode && call.caller() == user
}

/// A call that is refused leaves the whole state as it found it.
pub proof fn lemma_refused_call_changes_nothing(state: VaultState, call: Call)
    requires
        state.refusal(call) is Some,
    ensures
        state.next(call) == state,
{
}

/// An identity's mode changes only when the identity itself chooses one:
/// every other call leaves it as it was.
pub proof fn lemma_mode_changes_only_by_choice(state: VaultState, call: Call, user: Identity)
    requires
        !chooses_mode(call, user),
    ensures
        state.next(call).modes.contains_key(user) == state.modes.contains_key(user),
        state.next(call).mode_of(user) == state.mode_of(user),
{
}

/// An identity that has no record, and that never chooses a mode in the
/// course of `calls`, is in `Safe` mode afterwards.
pub proof fn lemma_safe_until_chosen(state: VaultState, calls: Seq<Call>, user: Identity)
    requires
        !state.modes.contains_key(user),
        forall|i: int| 0 <= i < calls.len() ==> !chooses_mode(#[trigger] calls[i], user),
    ensures
        !state.run(calls).modes.contains_key(user),
        state.run(calls).mode_of(user) == SafetyMode::Safe,
    decreases calls.len(),
{
    if calls.len() > 0 {
        let earlier = calls.drop_last();
        lemma_safe_until_chosen(state, earlier, user);
        lemma_mode_changes_only_by_choice(state.run(earlier), calls.last(), user);
    }
}

/// After initialization every identity is in `Safe` mode until it chooses
/// one itself, whatever else is called in between.
pub proof fn lemma_initially_safe(admin: Identity, calls: Seq<Call>, user: Identity)
    requires
        forall|i: int| 0 <= i < calls.len() ==> !chooses_mode(#[trigger] calls[i], user),
    ensures
        VaultState::initial(admin).run(calls).mode_of(user) == SafetyMode::Safe,
{
    lemma_safe_until_chosen(VaultState::initial(admin), calls, user);
}

/// Choosing a value that stands for no mode fails with `InvalidMode`, and
/// every identity keeps the mode it had.
pub proof fn lemma_invalid_mode_is_refused(state: VaultState, caller: Identity, mode: u8)
    requires
        mode > 2,
    ensures
        state.refusal(Call::SetMode { caller, mode }) == Some(Error::InvalidMode),
        state.next(Call::SetMode { caller, mode }) == state,
{
}

/// A valid choice of mode is in force for the caller afterwards and touches
/// no other identity's mode.
pub proof fn lemma_chosen_mode_is_kept(
    state: VaultState,
    caller: Identity,
    mode: SafetyMode,
    other: Identity,
)
    ensures
        state.next(Call::SetMode { caller, mode: mode.spec_to_u8() }).mode_of(caller) == mode,
        other != caller ==> state.next(Call::SetMode { caller, mode: mode.spec_to_u8() }).mode_of(
            other,
        ) == state.mode_of(other),
{
}

/// No call changes the administrator.
pub proof fn lemma_admin_is_fixed(state: VaultState, calls: Seq<Call>)
    ensures
        state.run(calls).admin == state.admin,
    decreases calls.len(),
{
    if calls.len() > 0 {
        lemma_admin_is_fixed(state, calls.drop_last());
    }
}

/// A call of an administrator's operation by anyone else fails with
/// `Unauthorized` and changes nothing; made by the administrator, it
/// succeeds.
pub proof fn lemma_admin_gate(state: VaultState, call: Call)
    requires
        call.admin_only(),
    ensures
        state.is_admin(call.caller()) ==> state.refusal(call) is None,
        !state.is_admin(call.caller()) ==> state.refusal(call) == Some(Error::Unauthorized)
            && state.next(call) == state,
{
}

/// Choosing a mode and deciding on an action only read the allowlist and the
/// limits, whoever calls.
pub proof fn lemma_other_calls_only_read_policy(state: VaultState, call: Call)
    requires
        !call.admin_only(),
    ensures
        state.next(call).allowed == state.allowed,
        state.next(call).limits == state.limits,
{
}

/// The allowlist and the limits change only through calls that the
/// administrator makes: a call by anyone else leaves both as they were.
pub proof fn lemma_only_admin_changes_policy(state: VaultState, call: Call)
    requires
        !state.is_admin(call.caller()),
    ensures
        state.next(call).allowed == state.allowed,
        state.next(call).limits == state.limits,
{
}

/// Over any sequence of calls of which the administrator makes none, the
/// allowlist and the limits stay as they were.
pub proof fn lemma_policy_fixed_without_admin(state: VaultState, calls: Seq<Call>)
    requires
        forall|i: int| 0 <= i < calls.len() ==> !state.is_admin((#[trigger] calls[i]).caller()),
    ensures
        state.run(calls).allowed == state.allowed,
        state.run(calls).limits == state.limits,
    decreases calls.len(),
{
    if calls.len() > 0 {
        let earlier = calls.drop_last();
        lemma_policy_fixed_without_admin(state, earlier);
        lemma_admin_is_fixed(state, earlier);
        lemma_only_admin_changes_policy(state.run(earlier), calls.last());
    }
}

/// Once the administrator has approved a target it is approved; once the
/// administrator has then withdrawn the approval it is not.
pub proof fn lemma_add_then_remove(state: VaultState, admin: Identity, target: Identity)
    requires
        state.is_admin(admin),
    ensures
        state.next(Call::AddAllowedContract { caller: admin, target }).allowed.contains(target),
        !state.next(Call::AddAllowedContract { caller: admin, target }).next(
            Call::RemoveAllowedContract { caller: admin, target },
        ).allowed.contains(target),
{
}

/// Approving twice is approving once, and so is withdrawing.
pub proof fn lemma_allowlist_idempotent(state: VaultState, admin: Identity, target: Identity)
    ensures
        state.next(Call::AddAllowedContract { caller: admin, target }).next(
            Call::AddAllowedContract { caller: admin, target },
        ) == state.next(Call::AddAllowedContract { caller: admin, target }),
        state.next(Call::RemoveAllowedContract { caller: admin, target }).next(
            Call::RemoveAllowedContract { caller: admin, target },
        ) == state.next(Call::RemoveAllowedContract { caller: admin, target }),
{
    let added = state.next(Call::AddAllowedContract { caller: admin, target });
    let removed = state.next(Call::RemoveAllowedContract { caller: admin, target });
    if state.is_admin(admin) {
        assert(added.allowed.insert(target) =~= added.allowed);
        assert(removed.allowed.remove(target) =~= removed.allowed);
    }
}

/// Deciding on an action changes nothing, whatever the decision.
pub proof fn lemma_decision_changes_nothing(
    state: VaultState,
    caller: Identity,
    target: Identity,
    amount: nat,
)
    ensures
        state.next(Call::ExecuteAction { caller, target, amount }) == state,
{
}

/// In `Safe` mode an action passes exactly when the target is approved and
/// the amount is within the safe limit; where both fail, the target is what
/// is reported.
pub proof fn lemma_safe_mode(state: VaultState, caller: Identity, target: Identity, amount: nat)
    requires
        state.mode_of(caller) == SafetyMode::Safe,
    ensures
        state.decide(caller, target, amount) is Ok <==> state.allowed.contains(target) && amount
            <= state.limits.safe_limit(),
        !state.allowed.contains(target) ==> state.decide(caller, target, amount) is Err
            && state.decide(caller, target, amount)->Err_0 == Error::ContractNotAllowed,
        state.allowed.contains(target) && amount > state.limits.safe_limit() ==> state.decide(
            caller,
            target,
            amount,
        ) is Err && state.decide(caller, target, amount)->Err_0 == Error::AmountExceedsLimit,
{
}

/// In `Balanced` mode an action passes exactly when the amount is within the
/// balanced limit, whether or not the target is approved.
pub proof fn lemma_balanced_mode(
    state: VaultState,
    caller: Identity,
    target: Identity,
    amount: nat,
)
    requires
        state.mode_of(caller) == SafetyMode::Balanced,
    ensures
        state.decide(caller, target, amount) is Ok <==> amount <= state.limits.balanced_limit(),
        amount > state.limits.balanced_limit() ==> state.decide(caller, target, amount) is Err
            && state.decide(caller, target, amount)->Err_0 == Error::AmountExceedsLimit,
{
}

/// In `Degenerate` mode every action passes.
pub proof fn lemma_degenerate_mode(
    state: VaultState,
    caller: Identity,
    target: Identity,
    amount: nat,
)
    requires
        state.mode_of(caller) == SafetyMode::Degenerate,
    ensures
        state.decide(caller, target, amount) is Ok,
{
}

} // verus!
