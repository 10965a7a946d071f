//! The reasons for which a call is refused.

use vstd::prelude::*;

verus! {

/// Why a call was aborted. A failed call reports exactly one of these and
/// leaves the persisted state as it found it.
#[derive(Clone, Copy, Debug, PartialEq, Eq, Structural, Hash)]
pub enum Error {
    /// The caller is not the administrator.
    Unauthorized,
    /// Safe mode, and the target is not on the allowlist.
    ContractNotAllowed,
    /// The amount is above the ceiling of the caller's mode.
    AmountExceedsLimit,
    /// The mode value stands for no mode.
    InvalidMode,
}

impl Error {
    /// The number under which the error is surfaced to the caller.
    pub open spec fn spec_code(self) -> u16 {
        match self {
            Error::Unauthorized => 1,
            Error::ContractNotAllowed => 2,
            Error::AmountExceedsLimit => 3,
            Error::InvalidMode => 4,
        }
    }

    /// The error's numeric code.
    #[verifier::when_used_as_spec(spec_code)]
    pub fn code(self) -> (code: u16)
        ensures
            code == self.spec_code(),
    {
        match self {
            Error::Unauthorized => 1,
            Error::ContractNotAllowed => 2,
            Error::AmountExceedsLimit => 3,
            Error::InvalidMode => 4,
        }
    }

    /// Different errors carry different codes.
    pub proof fn lemma_code_injective(a: Error, b: Error)
        requires
            a.spec_code() == b.spec_code(),
        ensures
            a == b,
    {
    }
}

} // verus!
