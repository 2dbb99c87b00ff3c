//! Population members and fitness-ordered sorting.
//!
//! A member pairs a chromosome with its settled fitness key.  The population
//! is sorted by key, in the configured direction, so that the best member is
//! always the last element: under "desc" order the keys fall from front to
//! back and the numerically smallest error ends up last.

use vstd::prelude::*;
use crate::tree::Node;

verus! {

/// A chromosome together with its settled fitness key
/// (see [`crate::fitness`]).
pub struct Member {
    pub chromosome: Node,
    pub fitness: u64,
}

impl Member {
    /// Makes an exact copy of the member, chromosome included.
    pub fn deep_clone(&self) -> (r: Member)
        ensures
            r == *self,
    {
        Member { chromosome: self.chromosome.deep_clone(), fitness: self.fitness }
    }
}

/// Whether a member with key `a` may stand before one with key `b` under the
/// configured direction: falling keys for "desc" order, rising otherwise.
pub open spec fn in_order(desc: bool, a: u64, b: u64) -> bool {
    if desc {
        a >= b
    } else {
        a <= b
    }
}

/// Whether a sequence of members is sorted in the configured direction.
pub open spec fn sorted_by(s: Seq<Member>, desc: bool) -> bool {
    forall|i: int, j: int|
        0 <= i <= j < s.len() ==> in_order(desc, #[trigger] s[i].fitness, #[trigger] s[j].fitness)
}

/// Decides [`in_order`] for two keys.
pub fn keys_in_order(desc: bool, a: u64, b: u64) -> (r: bool)
    ensures
        r == in_order(desc, a, b),
{
    if desc {
        a >= b
    } else {
        a <= b
    }
}

/// Sorts the members by fitness key in the configured direction.  The same
/// members come out that went in; after the call the last member is best:
/// no other member's key stands closer to the good end of the order.
pub fn sort_members(members: &mut Vec<Member>, desc: bool)
    ensures
        sorted_by(final(members)@, desc),
        final(members)@.to_multiset() == old(members)@.to_multiset(),
        final(members)@.len() == old(members)@.len(),
{
    broadcast use vstd::seq_lib::group_to_multiset_ensures;

    let ghost original: Seq<Member> = members@;
    let mut taken: Vec<Member> = Vec::new();
    while members.len() > 0
        invariant
            sorted_by(taken@, desc),
            forall|i: int, j: int|
                0 <= i < taken@.len() && 0 <= j < members@.len() ==> in_order(
                    desc,
                    #[trigger] taken@[i].fitness,
                    #[trigger] members@[j].fitness,
                ),
            taken@.to_multiset().add(members@.to_multiset()) == original.to_multiset(),
            taken@.len() + members@.len() == original.len(),
        decreases members@.len(),
    {
        let mut best: usize = 0;
        let mut k: usize = 1;
        while k < members.len()
            invariant
                best < members@.len(),
                k <= members@.len(),
                members@.len() >= 1,
                forall|j: int|
                    0 <= j < k ==> in_order(
                        desc,
                        members@[best as int].fitness,
                        #[trigger] members@[j].fitness,
                    ),
            decreases members@.len() - k,
        {
            if !keys_in_order(desc, members[best].fitness, members[k].fitness) {
                best = k;
            }
            k += 1;
        }
        let ghost before: Seq<Member> = members@;
        let ghost taken_before: Seq<Member> = taken@;
        let next = members.remove(best);
        taken.push(next);
        proof {
            broadcast use vstd::multiset::group_multiset_axioms;

            vstd::seq_lib::to_multiset_build(taken_before, next);
            vstd::seq_lib::to_multiset_remove(before, best as int);
            vstd::seq_lib::to_multiset_contains(before, next);
            assert(before.contains(next));
            assert(taken@ == taken_before.push(next));
            assert(members@ == before.remove(best as int));
            assert(taken@.to_multiset().add(members@.to_multiset())
                =~= taken_before.to_multiset().add(before.to_multiset()));
        }
    }
    *members = taken;
}

} // verus!
