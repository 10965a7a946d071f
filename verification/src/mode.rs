//! The safety mode that an identity selects for itself.

use vstd::prelude::*;

verus! {

/// How strictly an identity's actions are checked.
#[derive(Clone, Copy, Debug, PartialEq, Eq, Structural, Hash)]
pub enum SafetyMode {
    /// Only approved targets, and only up to the safe limit.
    Safe,
    /// Any target, up to the balanced limit.
    Balanced,
    /// No checks at all.
    Degenerate,
}

impl SafetyMode {
    /// The byte under which a mode is persisted.
    pub open spec fn spec_to_u8(self) -> u8 {
        match self {
            SafetyMode::Safe => 0,
            SafetyMode::Balanced => 1,
            SafetyMode::Degenerate => 2,
        }
    }

    /// The mode that a byte stands for, if it stands for one.
    pub open spec fn spec_from_u8(value: u8) -> Option<SafetyMode> {
        if value == 0 {
            Some(SafetyMode::Safe)
        } else if value == 1 {
            Some(SafetyMode::Balanced)
        } else if value == 2 {
            Some(SafetyMode::Degenerate)
        } else {
            None
        }
    }

    /// Encodes the mode as its persisted byte.
    #[verifier::when_used_as_spec(spec_to_u8)]
    pub fn to_u8(self) -> (value: u8)
        ensures
            value == self.spec_to_u8(),
            value <= 2,
    {
        match self {
            SafetyMode::Safe => 0,
            SafetyMode::Balanced => 1,
            SafetyMode::Degenerate => 2,
        }
    }

    /// Decodes a persisted byte. Bytes above 2 stand for no mode.
    pub fn from_u8(value: u8) -> (mode: Option<SafetyMode>)
        ensures
            mode == Self::spec_from_u8(value),
            mode is Some <==> value <= 2,
    {
        match value {
            0 => Some(SafetyMode::Safe),
            1 => Some(SafetyMode::Balanced),
            2 => Some(SafetyMode::Degenerate),
            _ => None,
        }
    }

    /// Decoding undoes encoding.
    pub proof fn lemma_from_to_u8(self)
        ensures
            Self::spec_from_u8(self.spec_to_u8()) == Some(self),
    {
    }

    /// Encoding undoes decoding, wherever decoding succeeds.
    pub proof fn lemma_to_from_u8(value: u8)
        requires
            value <= 2,
        ensures
            Self::spec_from_u8(value) is Some,
            Self::spec_from_u8(value).unwrap().spec_to_u8() == value,
    {
    }
}

impl Default for SafetyMode {
    /// The most restrictive mode: the one an identity has until it chooses.
    fn default() -> (mode: SafetyMode)
        ensures
            mode == SafetyMode::Safe,
    {
        SafetyMode::Safe
    }
}

} // verus!
