//! The authorization decision: a pure function of the caller's mode, the
//! target, the amount, the allowlist and the limits.

use vstd::prelude::*;
use crate::allowlist::Allowlist;
use crate::amount::Amount;
use crate::error::Error;
use crate::identity::Identity;
use crate::limits::LimitTable;
use crate::mode::SafetyMode;

verus! {

/// How an action was allowed.
#[derive(Clone, Copy, Debug, PartialEq, Eq, Structural, Hash)]
pub enum Approval {
    /// Allowed, with nothing to remark.
    Clear,
    /// Allowed in `Balanced` mode although the target is not on the
    /// allowlist. The remark is advisory and never denies the action.
    UnlistedTarget,
}

/// The decision for an action, by the rules of each mode.
///
/// `Safe` asks first for a listed target, then for an amount within the safe
/// limit. `Balanced` asks for an amount within the balanced limit, and
/// remarks on an unlisted target. `Degenerate` asks nothing. A byte that
/// stands for no mode is refused.
pub open spec fn decision(
    mode: u8,
    listed: bool,
    amount: nat,
    safe_limit: nat,
    balanced_limit: nat,
) -> Result<Approval, Error> {
    match SafetyMode::spec_from_u8(mode) {
        Some(SafetyMode::Safe) => {
            if !listed {
                Err(Error::ContractNotAllowed)
            } else if amount > safe_limit {
                Err(Error::AmountExceedsLimit)
            } else {
                Ok(Approval::Clear)
            }
        },
        Some(SafetyMode::Balanced) => {
            if amount > balanced_limit {
                Err(Error::AmountExceedsLimit)
            } else if !listed {
                Ok(Approval::UnlistedTarget)
            } else {
                Ok(Approval::Clear)
            }
        },
        Some(SafetyMode::Degenerate) => Ok(Approval::Clear),
        None => Err(Error::InvalidMode),
    }
}

/// Decides whether an action of `amount` towards `target` is allowed for a
/// caller whose persisted mode byte is `mode`.
///
/// Nothing is changed by the decision: it may be taken any number of times.
pub fn authorize(
    mode: u8,
    target: &Identity,
    amount: &Amount,
    allowlist: &Allowlist,
    limits: &LimitTable,
) -> (outcome: Result<Approval, Error>)
    ensures
        outcome == decision(
            mode,
            allowlist@.contains(*target),
            amount@,
            limits@.safe_limit(),
            limits@.balanced_limit(),
        ),
        mode == 0 ==> (outcome is Ok <==> allowlist@.contains(*target) && amount@
            <= limits@.safe_limit()),
        mode == 0 && !allowlist@.contains(*target) ==> outcome == Err::<Approval, Error>(
            Error::ContractNotAllowed,
        ),
        mode == 1 ==> (outcome is Ok <==> amount@ <= limits@.balanced_limit()),
        mode == 2 ==> outcome is Ok,
        mode > 2 ==> outcome == Err::<Approval, Error>(Error::InvalidMode),
{
    match SafetyMode::from_u8(mode) {
        Some(SafetyMode::Safe) => {
            if !allowlist.contains(target) {
                Err(Error::ContractNotAllowed)
            } else if amount.gt(&limits.get_safe_limit()) {
                Err(Error::AmountExceedsLimit)
            } else {
                Ok(Approval::Clear)
            }
        },
        Some(SafetyMode::Balanced) => {
            if amount.gt(&limits.get_balanced_limit()) {
                Err(Error::AmountExceedsLimit)
            } else if !allowlist.contains(target) {
                Ok(Approval::UnlistedTarget)
            } else {
                Ok(Approval::Clear)
            }
        },
        Some(SafetyMode::Degenerate) => Ok(Approval::Clear),
        None => Err(Error::InvalidMode),
    }
}

} // verus!
