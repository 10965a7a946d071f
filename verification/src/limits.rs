//! The spending ceilings of the two bounded modes.

use vstd::prelude::*;
use crate::amount::Amount;

verus! {

/// The ceiling of `Safe` mode until the administrator sets one.
pub const DEFAULT_SAFE_LIMIT: u64 = 1000;

/// The ceiling of `Balanced` mode until the administrator sets one.
pub const DEFAULT_BALANCED_LIMIT: u64 = 10000;

/// The number that an optional amount stands for.
pub open spec fn optional_value(amount: Option<Amount>) -> Option<nat> {
    match amount {
        Some(a) => Some(a@),
        None => None,
    }
}

/// What a limit table holds, as numbers. `None` is a ceiling that was never
/// set.
pub struct Limits {
    pub safe: Option<nat>,
    pub balanced: Option<nat>,
}

impl Limits {
    /// The ceiling in force for `Safe` mode.
    pub open spec fn safe_limit(self) -> nat {
        match self.safe {
            Some(limit) => limit,
            None => DEFAULT_SAFE_LIMIT as nat,
        }
    }

    /// The ceiling in force for `Balanced` mode.
    pub open spec fn balanced_limit(self) -> nat {
        match self.balanced {
            Some(limit) => limit,
            None => DEFAULT_BALANCED_LIMIT as nat,
        }
    }

    /// The table after an update in which each ceiling is given or left out.
    /// A ceiling that is left out stays as it was.
    pub open spec fn updated(self, safe: Option<nat>, balanced: Option<nat>) -> Limits {
        Limits {
            safe: if safe is Some { safe } else { self.safe },
            balanced: if balanced is Some { balanced } else { self.balanced },
        }
    }
}

/// The two ceilings, each either set or not yet set.
#[derive(Clone, Copy, Debug)]
pub struct LimitTable {
    pub safe: Option<Amount>,
    pub balanced: Option<Amount>,
}

impl View for LimitTable {
    type V = Limits;

    open spec fn view(&self) -> Limits {
        Limits { safe: optional_value(self.safe), balanced: optional_value(self.balanced) }
    }
}

impl LimitTable {
    /// The table in which neither ceiling has been set.
    pub fn unset() -> (table: LimitTable)
        ensures
            table@ == (Limits { safe: None, balanced: None }),
    {
        LimitTable { safe: None, balanced: None }
    }

    /// The table in which both ceilings are set to their defaults.
    pub fn defaults() -> (table: LimitTable)
        ensures
            table@ == (Limits {
                safe: Some(DEFAULT_SAFE_LIMIT as nat),
                balanced: Some(DEFAULT_BALANCED_LIMIT as nat),
            }),
    {
        LimitTable {
            safe: Some(Amount::from_u64(DEFAULT_SAFE_LIMIT)),
            balanced: Some(Amount::from_u64(DEFAULT_BALANCED_LIMIT)),
        }
    }

    /// The ceiling of `Safe` mode: the one set, or the default.
    pub fn get_safe_limit(&self) -> (limit: Amount)
        ensures
            limit@ == self@.safe_limit(),
    {
        match self.safe {
            Some(limit) => limit,
            None => Amount::from_u64(DEFAULT_SAFE_LIMIT),
        }
    }

    /// The ceiling of `Balanced` mode: the one set, or the default.
    pub fn get_balanced_limit(&self) -> (limit: Amount)
        ensures
            limit@ == self@.balanced_limit(),
    {
        match self.balanced {
            Some(limit) => limit,
            None => Amount::from_u64(DEFAULT_BALANCED_LIMIT),
        }
    }

    /// Overwrites each ceiling that is given and leaves the other untouched.
    pub fn set_limits(&mut self, safe: Option<Amount>, balanced: Option<Amount>)
        ensures
            final(self)@ == old(self)@.updated(optional_value(safe), optional_value(balanced)),
    {
        if let Some(limit) = safe {
            self.safe = Some(limit);
        }
        if let Some(limit) = balanced {
            self.balanced = Some(limit);
        }
    }
}

} // verus!
