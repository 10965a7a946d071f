//! Identities: the principals that call the engine and that actions target.

use vstd::prelude::*;

verus! {

/// What kind of principal an identity refers to.
#[derive(Clone, Copy, Debug, PartialEq, Eq, Structural, PartialOrd, Ord, Hash)]
pub enum IdentityKind {
    /// A user account.
    Account,
    /// A stored contract.
    Contract,
}

/// A principal reference: an account or a contract, named by its hash.
///
/// Two identities are the same exactly when kind and hash agree.
#[derive(Clone, Copy, Debug, Eq, PartialOrd, Ord, Hash)]
pub struct Identity {
    pub kind: IdentityKind,
    pub hash: [u8; 32],
}

impl Identity {
    /// The account with the given hash.
    pub fn account(hash: [u8; 32]) -> (identity: Identity)
        ensures
            identity == (Identity { kind: IdentityKind::Account, hash }),
    {
        Identity { kind: IdentityKind::Account, hash }
    }

    /// The contract with the given hash.
    pub fn contract(hash: [u8; 32]) -> (identity: Identity)
        ensures
            identity == (Identity { kind: IdentityKind::Contract, hash }),
    {
        Identity { kind: IdentityKind::Contract, hash }
    }
}

impl PartialEq for Identity {
    fn eq(&self, other: &Identity) -> (same: bool) {
        if self.kind != other.kind {
            return false;
        }
        let mut i: usize = 0;
        while i < 32
            invariant
                i <= 32,
                self.kind == other.kind,
                forall|j: int| 0 <= j < i ==> self.hash[j] == other.hash[j],
            decreases 32 - i,
        {
            if self.hash[i] != other.hash[i] {
                return false;
            }
            i += 1;
        }
        assert(self.hash =~= other.hash);
        true
    }
}

impl vstd::std_specs::cmp::PartialEqSpecImpl for Identity {
    open spec fn obeys_eq_spec() -> bool {
        true
    }

    open spec fn eq_spec(&self, other: &Identity) -> bool {
        *self == *other
    }
}

} // verus!
