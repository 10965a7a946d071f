//! The set of targets that the administrator has approved.

use vstd::prelude::*;
use crate::identity::Identity;

verus! {

/// Taking one element out of a sequence without duplicates takes it out of
/// the sequence's set, and leaves a sequence without duplicates.
proof fn lemma_remove_to_set(members: Seq<Identity>, at: int)
    requires
        members.no_duplicates(),
        0 <= at < members.len(),
    ensures
        members.remove(at).no_duplicates(),
        members.remove(at).to_set() == members.to_set().remove(members[at]),
{
    let rest = members.remove(at);
    assert forall|x: Identity| rest.to_set().contains(x) <==> members.to_set().remove(
        members[at],
    ).contains(x) by {
        if rest.to_set().contains(x) {
            let i = choose|i: int| 0 <= i < rest.len() && rest[i] == x;
            assert(x == if i < at { members[i] } else { members[i + 1] });
        }
        if members.to_set().remove(members[at]).contains(x) {
            let i = choose|i: int| 0 <= i < members.len() && members[i] == x;
            assert(x == if i < at { rest[i] } else { rest[i - 1] });
        }
    }
    assert(rest.to_set() =~= members.to_set().remove(members[at]));
}

/// A finite set of identities. Adding a member twice, or removing one that is
/// absent, changes nothing.
#[derive(Debug)]
pub struct Allowlist {
    members: Vec<Identity>,
}

impl View for Allowlist {
    type V = Set<Identity>;

    /// The set of identities on the list.
    closed spec fn view(&self) -> Set<Identity> {
        self.members@.to_set()
    }
}

impl Allowlist {
    /// No identity is held twice.
    #[verifier::type_invariant]
    spec fn distinct(self) -> bool {
        self.members@.no_duplicates()
    }

    /// The empty list.
    pub fn new() -> (list: Allowlist)
        ensures
            list@ == Set::<Identity>::empty(),
    {
        let list = Allowlist { members: Vec::new() };
        assert(list@ =~= Set::<Identity>::empty());
        list
    }

    /// Whether `target` is on the list.
    pub fn contains(&self, target: &Identity) -> (listed: bool)
        ensures
            listed == self@.contains(*target),
    {
        self.position(target).is_some()
    }

    /// Puts `target` on the list. Returns whether it was absent before.
    pub fn insert(&mut self, target: Identity) -> (added: bool)
        ensures
            final(self)@ == old(self)@.insert(target),
            added == !old(self)@.contains(target),
    {
        proof {
            use_type_invariant(&*self);
        }
        if self.position(&target).is_some() {
            assert(self@ =~= self@.insert(target));
            false
        } else {
            // The members are taken out while they change and put back whole.
            let mut members: Vec<Identity> = Vec::new();
            core::mem::swap(&mut self.members, &mut members);
            proof {
                members@.lemma_push_to_set_commute(target);
            }
            members.push(target);
            self.members = members;
            true
        }
    }

    /// Takes `target` off the list. Returns whether it was present before.
    pub fn remove(&mut self, target: &Identity) -> (removed: bool)
        ensures
            final(self)@ == old(self)@.remove(*target),
            removed == old(self)@.contains(*target),
    {
        proof {
            use_type_invariant(&*self);
        }
        match self.position(target) {
            None => {
                assert(self@ =~= self@.remove(*target));
                false
            },
            Some(at) => {
                let mut members: Vec<Identity> = Vec::new();
                core::mem::swap(&mut self.members, &mut members);
                proof {
                    lemma_remove_to_set(members@, at as int);
                }
                members.remove(at);
                self.members = members;
                true
            },
        }
    }

    /// The number of identities on the list.
    pub fn len(&self) -> (count: usize)
        ensures
            count == self@.len(),
            self@.finite(),
    {
        proof {
            use_type_invariant(self);
            self.members@.unique_seq_to_set();
        }
        self.members.len()
    }

    /// The identities on the list, each once.
    pub fn members(&self) -> (all: Vec<Identity>)
        ensures
            all@.to_set() == self@,
            all@.no_duplicates(),
    {
        proof {
            use_type_invariant(self);
        }
        let mut all: Vec<Identity> = Vec::new();
        let mut i: usize = 0;
        while i < self.members.len()
            invariant
                i <= self.members.len(),
                all@ == self.members@.take(i as int),
            decreases self.members.len() - i,
        {
            all.push(self.members[i]);
            assert(self.members@.take(i + 1) =~= self.members@.take(i as int).push(self.members@[i as int]));
            i += 1;
        }
        assert(self.members@.take(i as int) =~= self.members@);
        all
    }

    /// Where `target` stands in the list, if it does.
    fn position(&self, target: &Identity) -> (found: Option<usize>)
        ensures
            found is Some <==> self.members@.to_set().contains(*target),
            found matches Some(at) ==> at < self.members@.len() && self.members@[at as int]
                == *target,
    {
        let mut i: usize = 0;
        while i < self.members.len()
            invariant
                i <= self.members.len(),
                forall|j: int| 0 <= j < i ==> self.members@[j] != *target,
            decreases self.members.len() - i,
        {
            if self.members[i] == *target {
                return Some(i);
            }
            i += 1;
        }
        None
    }
}

} // verus!
