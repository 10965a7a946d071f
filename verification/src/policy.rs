//! The safety mode that each identity has chosen.

use vstd::prelude::*;
use crate::error::Error;
use crate::identity::Identity;
use crate::mode::SafetyMode;

verus! {

/// The mode in force for `user` under the given records: the recorded one, or
/// `Safe` where none is recorded.
pub open spec fn mode_in(modes: Map<Identity, SafetyMode>, user: Identity) -> SafetyMode {
    if modes.contains_key(user) {
        modes[user]
    } else {
        SafetyMode::Safe
    }
}

/// Whether the record at `i` is the one for `user`.
spec fn record_at(records: Seq<(Identity, SafetyMode)>, user: Identity, i: int) -> bool {
    0 <= i < records.len() && records[i].0 == user
}

/// The map that a sequence of records stands for.
spec fn records_map(records: Seq<(Identity, SafetyMode)>) -> Map<Identity, SafetyMode> {
    Map::new(
        |user: Identity| exists|i: int| record_at(records, user, i),
        |user: Identity| records[choose|i: int| record_at(records, user, i)].1,
    )
}

/// No two records are for the same identity.
spec fn distinct_users(records: Seq<(Identity, SafetyMode)>) -> bool {
    forall|i: int, j: int|
        0 <= i < j < records.len() ==> #[trigger] records[i].0 != #[trigger] records[j].0
}

/// With distinct users, the record found for a user is the one the map shows.
proof fn lemma_record_found(records: Seq<(Identity, SafetyMode)>, user: Identity, at: int)
    requires
        distinct_users(records),
        record_at(records, user, at),
    ensures
        records_map(records).contains_key(user),
        records_map(records)[user] == records[at].1,
{
    let chosen = choose|i: int| record_at(records, user, i);
    assert(chosen == at);
}

/// Per-identity safety modes. An identity without a record is in `Safe` mode.
#[derive(Debug)]
pub struct UserPolicy {
    records: Vec<(Identity, SafetyMode)>,
}

impl View for UserPolicy {
    type V = Map<Identity, SafetyMode>;

    /// The recorded modes, by identity.
    closed spec fn view(&self) -> Map<Identity, SafetyMode> {
        records_map(self.records@)
    }
}

impl UserPolicy {
    /// Each identity has at most one record.
    #[verifier::type_invariant]
    spec fn one_record_each(self) -> bool {
        distinct_users(self.records@)
    }

    /// The policy in which no identity has chosen yet.
    pub fn new() -> (policy: UserPolicy)
        ensures
            policy@ == Map::<Identity, SafetyMode>::empty(),
    {
        let policy = UserPolicy { records: Vec::new() };
        policy
    }

    /// The mode recorded for `user`, if one is.
    pub fn recorded(&self, user: &Identity) -> (mode: Option<SafetyMode>)
        ensures
            mode is Some <==> self@.contains_key(*user),
            mode matches Some(m) ==> m == self@[*user],
    {
        proof {
            use_type_invariant(self);
        }
        match self.position(user) {
            Some(at) => {
                proof {
                    lemma_record_found(self.records@, *user, at as int);
                }
                Some(self.records[at].1)
            },
            None => None,
        }
    }

    /// The mode in force for `user`: the recorded one, or `Safe`.
    pub fn get_mode(&self, user: &Identity) -> (mode: SafetyMode)
        ensures
            mode == mode_in(self@, *user),
    {
        match self.recorded(user) {
            Some(mode) => mode,
            None => SafetyMode::Safe,
        }
    }

    /// Records `mode` for `user`, in place of any earlier record.
    pub fn set_mode(&mut self, user: Identity, mode: SafetyMode)
        ensures
            final(self)@ == old(self)@.insert(user, mode),
    {
        proof {
            use_type_invariant(&*self);
        }
        let ghost before = self.records@;
        let found = self.position(&user);
        // The records are taken out while they change and put back whole.
        let mut records: Vec<(Identity, SafetyMode)> = Vec::new();
        core::mem::swap(&mut self.records, &mut records);
        match found {
            Some(at) => {
                records[at] = (user, mode);
            },
            None => {
                records.push((user, mode));
            },
        }
        let ghost at: int = match found {
            Some(at) => at as int,
            None => before.len() as int,
        };
        proof {
            let after = records@;
            assert(record_at(after, user, at));
            assert forall|i: int, j: int| 0 <= i < j < after.len() implies #[trigger] after[i].0
                != #[trigger] after[j].0 by {
                if found is None && j == at {
                    assert(!record_at(before, user, i));
                }
            }
            assert forall|other: Identity|
                records_map(after).contains_key(other) <==> records_map(before).insert(
                    user,
                    mode,
                ).contains_key(other) by {
                if other != user {
                    if records_map(after).contains_key(other) {
                        let i = choose|i: int| record_at(after, other, i);
                        assert(record_at(before, other, i));
                    }
                    if records_map(before).contains_key(other) {
                        let i = choose|i: int| record_at(before, other, i);
                        assert(record_at(after, other, i));
                    }
                }
            }
            assert forall|other: Identity| records_map(after).contains_key(other) implies records_map(
                after,
            )[other] == records_map(before).insert(user, mode)[other] by {
                let i = choose|i: int| record_at(after, other, i);
                lemma_record_found(after, other, i);
                if other != user {
                    lemma_record_found(before, other, i);
                } else {
                    lemma_record_found(after, user, at);
                }
            }
        }
        self.records = records;
    }

    /// Records for `user` the mode that `byte` stands for. A byte that stands
    /// for no mode is refused with `InvalidMode`, and nothing is recorded.
    pub fn record(&mut self, user: Identity, byte: u8) -> (outcome: Result<(), Error>)
        ensures
            byte <= 2 ==> outcome == Ok::<(), Error>(()) && final(self)@ == old(self)@.insert(
                user,
                SafetyMode::spec_from_u8(byte).unwrap(),
            ),
            byte > 2 ==> outcome == Err::<(), Error>(Error::InvalidMode) && final(self)@ == old(
                self,
            )@,
    {
        match SafetyMode::from_u8(byte) {
            Some(mode) => {
                self.set_mode(user, mode);
                Ok(())
            },
            None => Err(Error::InvalidMode),
        }
    }

    /// Where the record for `user` stands, if there is one.
    fn position(&self, user: &Identity) -> (found: Option<usize>)
        ensures
            found is Some <==> exists|i: int| record_at(self.records@, *user, i),
            found matches Some(at) ==> record_at(self.records@, *user, at as int),
    {
        let mut i: usize = 0;
        while i < self.records.len()
            invariant
                i <= self.records.len(),
                forall|j: int| 0 <= j < i ==> !record_at(self.records@, *user, j),
            decreases self.records.len() - i,
        {
            if self.records[i].0 == *user {
                assert(record_at(self.records@, *user, i as int));
                return Some(i);
            }
            i += 1;
        }
        None
    }
}

} // verus!
