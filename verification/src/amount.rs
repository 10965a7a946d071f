//! Amounts of value: unsigned integers of 512 bits.

use vstd::prelude::*;

verus! {

/// The number that a sequence of limbs stands for, least significant limb
/// first.
pub open spec fn limbs_value(limbs: Seq<u64>) -> nat
    decreases limbs.len(),
{
    if limbs.len() == 0 {
        0
    } else {
        limbs[0] as nat + 0x1_0000_0000_0000_0000 * limbs_value(limbs.drop_first())
    }
}

/// If two limb sequences agree above position `i` and differ at `i`, the one
/// with the smaller limb at `i` stands for the smaller number.
pub proof fn lemma_limbs_value_order(a: Seq<u64>, b: Seq<u64>, i: int)
    requires
        a.len() == b.len(),
        0 <= i < a.len(),
        a[i] < b[i],
        forall|j: int| i < j < a.len() ==> a[j] == b[j],
    ensures
        limbs_value(a) < limbs_value(b),
    decreases a.len(),
{
    let ra = a.drop_first();
    let rb = b.drop_first();
    if i == 0 {
        assert(ra =~= rb);
    } else {
        lemma_limbs_value_order(ra, rb, i - 1);
    }
}

/// An unsigned integer below 2^512, held as eight limbs of 64 bits, least
/// significant first.
#[derive(Clone, Copy, Debug, Eq, Hash)]
pub struct Amount {
    pub limbs: [u64; 8],
}

impl View for Amount {
    type V = nat;

    /// The number that the amount stands for.
    open spec fn view(&self) -> nat {
        limbs_value(self.limbs@)
    }
}

impl Amount {
    /// The amount made of the given limbs, least significant first.
    pub fn from_limbs(limbs: [u64; 8]) -> (amount: Amount)
        ensures
            amount.limbs == limbs,
            amount@ == limbs_value(limbs@),
    {
        Amount { limbs }
    }

    /// The amount equal to `value`.
    pub fn from_u64(value: u64) -> (amount: Amount)
        ensures
            amount@ == value,
            amount.limbs@ == seq![value, 0u64, 0u64, 0u64, 0u64, 0u64, 0u64, 0u64],
    {
        let amount = Amount { limbs: [value, 0, 0, 0, 0, 0, 0, 0] };
        proof {
            lemma_single_limb(amount.limbs@);
        }
        amount
    }

    /// Whether `self` is strictly greater than `other`, as numbers.
    pub fn gt(&self, other: &Amount) -> (greater: bool)
        ensures
            greater == (self@ > other@),
    {
        let mut i: usize = 8;
        while i > 0
            invariant
                i <= 8,
                forall|j: int| i <= j < 8 ==> self.limbs[j] == other.limbs[j],
            decreases i,
        {
            i -= 1;
            if self.limbs[i] > other.limbs[i] {
                proof {
                    lemma_limbs_value_order(other.limbs@, self.limbs@, i as int);
                }
                return true;
            }
            if self.limbs[i] < other.limbs[i] {
                proof {
                    lemma_limbs_value_order(self.limbs@, other.limbs@, i as int);
                }
                return false;
            }
        }
        assert(self.limbs@ =~= other.limbs@);
        false
    }

    /// Equal numbers have equal limbs: an amount has one representation.
    pub proof fn lemma_view_injective(a: Amount, b: Amount)
        requires
            a@ == b@,
        ensures
            a == b,
    {
        if exists|i: int| 0 <= i < 8 && a.limbs[i] != b.limbs[i] {
            let top = highest_difference(a.limbs@, b.limbs@, 8);
            if a.limbs[top] < b.limbs[top] {
                lemma_limbs_value_order(a.limbs@, b.limbs@, top);
            } else {
                lemma_limbs_value_order(b.limbs@, a.limbs@, top);
            }
        }
        assert(a.limbs =~= b.limbs);
    }
}

/// A sequence whose limbs above the first are zero stands for its first limb.
proof fn lemma_single_limb(limbs: Seq<u64>)
    requires
        limbs.len() >= 1,
        forall|j: int| 1 <= j < limbs.len() ==> limbs[j] == 0,
    ensures
        limbs_value(limbs) == limbs[0],
{
    lemma_zero_limbs(limbs.drop_first());
}

/// A sequence of zero limbs stands for zero.
proof fn lemma_zero_limbs(limbs: Seq<u64>)
    requires
        forall|j: int| 0 <= j < limbs.len() ==> limbs[j] == 0,
    ensures
        limbs_value(limbs) == 0,
    decreases limbs.len(),
{
    if limbs.len() > 0 {
        lemma_zero_limbs(limbs.drop_first());
    }
}

/// The highest position below `n` at which two sequences differ.
proof fn highest_difference(a: Seq<u64>, b: Seq<u64>, n: int) -> (top: int)
    requires
        0 <= n <= a.len(),
        a.len() == b.len(),
        exists|i: int| 0 <= i < n && a[i] != b[i],
        forall|j: int| n <= j < a.len() ==> a[j] == b[j],
    ensures
        0 <= top < n,
        a[top] != b[top],
        forall|j: int| top < j < a.len() ==> a[j] == b[j],
    decreases n,
{
    if a[n - 1] != b[n - 1] {
        n - 1
    } else {
        highest_difference(a, b, n - 1)
    }
}

impl PartialEq for Amount {
    fn eq(&self, other: &Amount) -> (same: bool) {
        let mut i: usize = 0;
        while i < 8
            invariant
                i <= 8,
                forall|j: int| 0 <= j < i ==> self.limbs[j] == other.limbs[j],
            decreases 8 - i,
        {
            if self.limbs[i] != other.limbs[i] {
                return false;
            }
            i += 1;
        }
        assert(self.limbs =~= other.limbs);
        true
    }
}

impl vstd::std_specs::cmp::PartialEqSpecImpl for Amount {
    open spec fn obeys_eq_spec() -> bool {
        true
    }

    open spec fn eq_spec(&self, other: &Amount) -> bool {
        *self == *other
    }
}

} // verus!
