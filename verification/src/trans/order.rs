//! The order of embedding: no record may hold itself by value.
//!
//! Through pointers the types of the registry refer to one another as they like. By value a
//! record can hold only what is complete without it. The types are ranked in rounds: a type
//! gets the number of the first round before which every type that it holds by value has its
//! rank. A type that never gets a rank lies on a cycle.

use vstd::prelude::*;
use crate::repr::Member;
use crate::repr::MemberView;
use crate::repr::Type;
use crate::repr::TypeDetails;
use crate::repr::TypeView;
use crate::repr::outer;
use crate::repr::spec_members_of;

verus! {

/// The mark of a type that has no rank yet.
pub const UNRANKED: usize = 0xffff_ffff;

/// Whether the members from `k` on allow their record a rank in the given round: whether
/// each type that is held by value has a rank from an earlier round.
pub open spec fn spec_ready(
    members: Seq<MemberView>,
    rank: Seq<usize>,
    round: usize,
    k: int,
) -> bool
    decreases members.len() - k,
{
    if k < 0 || k >= members.len() {
        true
    } else if members[k].by_value() {
        let h = members[k].decor_type.handle;
        1 <= h.0 <= rank.len() && rank[h.0 - 1] != UNRANKED && rank[h.0 - 1] < round
            && spec_ready(members, rank, round, k + 1)
    } else {
        spec_ready(members, rank, round, k + 1)
    }
}

/// The ranks after the types from `i` on have had their turn in the given round.
pub open spec fn spec_round(types: Seq<TypeView>, rank: Seq<usize>, round: usize, i: int) -> Seq<
    usize,
>
    decreases types.len() - i,
{
    if i < 0 || i >= types.len() || i >= rank.len() {
        rank
    } else if rank[i] == UNRANKED && spec_ready(spec_members_of(types[i].body), rank, round, 0) {
        spec_round(types, rank.update(i, round), round, i + 1)
    } else {
        spec_round(types, rank, round, i + 1)
    }
}

/// The ranks after the rounds from the given one on: the rounds go on as long as one gives
/// a rank, and no longer than there are types.
pub open spec fn spec_rounds(types: Seq<TypeView>, rank: Seq<usize>, round: usize) -> Seq<usize>
    decreases types.len() - round,
{
    if round >= types.len() || round >= UNRANKED - 1 {
        rank
    } else {
        let next = spec_round(types, rank, round, 0);
        if next == rank {
            rank
        } else {
            spec_rounds(types, next, (round + 1) as usize)
        }
    }
}

/// Whether every type from `i` on has a rank.
pub open spec fn spec_all_ranked(rank: Seq<usize>, i: int) -> bool
    decreases rank.len() - i,
{
    if i < 0 || i >= rank.len() {
        true
    } else {
        rank[i] != UNRANKED && spec_all_ranked(rank, i + 1)
    }
}

/// Whether the types can be ranked: whether no record holds itself by value.
pub open spec fn spec_can_rank(types: Seq<TypeView>) -> bool {
    spec_all_ranked(spec_rounds(types, Seq::new(types.len(), |i: int| UNRANKED), 0), 0)
}

/// Whether the ranks given so far are sound: every ranked type ranks above each type that it
/// holds by value, and no rank is beyond the round.
pub open spec fn spec_sound(types: Seq<TypeView>, rank: Seq<usize>, round: usize) -> bool {
    &&& rank.len() == types.len()
    &&& forall|i: int| 0 <= i < rank.len() && rank[i] != UNRANKED ==> #[trigger] rank[i] <= round
    &&& forall|i: int, k: int|
        0 <= i < types.len() && rank[i] != UNRANKED && 0 <= k < spec_members_of(
            types[i].body,
        ).len() && (#[trigger] spec_members_of(types[i].body)[k]).by_value() ==> {
            let h = spec_members_of(types[i].body)[k].decor_type.handle;
            1 <= h.0 <= types.len() && rank[h.0 - 1] != UNRANKED && rank[h.0 - 1] < rank[i]
        }
}

/// Members that allow a rank hold by value only what has one from an earlier round.
proof fn lemma_ready(members: Seq<MemberView>, rank: Seq<usize>, round: usize, k: int, j: int)
    requires
        0 <= k <= j < members.len(),
        spec_ready(members, rank, round, k),
        members[j].by_value(),
    ensures
        1 <= members[j].decor_type.handle.0 <= rank.len(),
        rank[members[j].decor_type.handle.0 - 1] != UNRANKED,
        rank[members[j].decor_type.handle.0 - 1] < round,
    decreases j - k,
{
    if k < j {
        lemma_ready(members, rank, round, k + 1, j);
    }
}

/// The members of a structure or union.
fn members_of(t: &Type) -> (r: Option<&Vec<Member>>)
    ensures
        match r {
            Some(m) => m.deep_view() == spec_members_of(t.deep_view().body),
            None => spec_members_of(t.deep_view().body).len() == 0,
        },
{
    match &t.body {
        TypeDetails::Struct(d) => Some(&d.members),
        TypeDetails::Union(d) => Some(&d.members),
        _ => None,
    }
}

/// Whether a type can have a rank in the given round.
fn ready(t: &Type, rank: &Vec<usize>, round: usize) -> (r: bool)
    ensures
        r == spec_ready(spec_members_of(t.deep_view().body), rank.deep_view(), round, 0),
{
    let members = match members_of(t) {
        Some(m) => m,
        None => {
            return true;
        },
    };
    let ghost views = members.deep_view();
    let mut k: usize = 0;
    proof {
        assert(rank.deep_view() =~= rank@);
    }
    while k < members.len()
        invariant
            views == members.deep_view(),
            views == spec_members_of(t.deep_view().body),
            rank.deep_view() == rank@,
            spec_ready(views, rank@, round, k as int) == spec_ready(views, rank@, round, 0),
        decreases members.len() - k,
    {
        let m = &members[k];
        proof {
            assert(views[k as int] == m.deep_view());
            assert(m.deep_view().decor_type.decors.len() == m.decor_type.decors.len());
        }
        if outer(&m.decor_type.decors).is_none() {
            let h = m.decor_type.handle;
            proof {
                assert(views[k as int].by_value());
                assert(views[k as int].decor_type.handle == h);
            }
            if !(1 <= h.0 && h.0 <= rank.len() && rank[h.0 - 1] != UNRANKED && rank[h.0 - 1]
                < round) {
                return false;
            }
        }
        k += 1;
    }
    true
}

/// Ranks the types. Gives the ranks if every type gets one.
pub fn rank_types(types: &Vec<Type>) -> (r: Option<Vec<usize>>)
    ensures
        r is Some <==> spec_can_rank(types.deep_view()),
        r is Some ==> r->0@ == spec_rounds(
            types.deep_view(),
            Seq::new(types.deep_view().len(), |i: int| UNRANKED),
            0,
        ),
        r is Some ==> r->0.len() == types.len() && spec_sound(
            types.deep_view(),
            r->0@,
            UNRANKED,
        ) && forall|i: int| 0 <= i < r->0.len() ==> r->0@[i] != UNRANKED,
{
    let n = types.len();
    let ghost views = types.deep_view();
    let mut rank: Vec<usize> = Vec::new();
    let mut i: usize = 0;
    while i < n
        invariant
            i <= n,
            rank.len() == i,
            forall|j: int| 0 <= j < i ==> rank@[j] == UNRANKED,
        decreases n - i,
    {
        rank.push(UNRANKED);
        i += 1;
    }
    proof {
        assert(rank@ =~= Seq::new(views.len(), |i: int| UNRANKED));
    }
    let mut round: usize = 0;
    let mut going = true;
    while going && round < n && round < UNRANKED - 1
        invariant
            n == types.len(),
            views == types.deep_view(),
            spec_sound(views, rank@, round),
            round < UNRANKED,
            going ==> spec_rounds(views, rank@, round) == spec_rounds(
                views,
                Seq::new(views.len(), |i: int| UNRANKED),
                0,
            ),
            !going ==> rank@ == spec_rounds(views, Seq::new(views.len(), |i: int| UNRANKED), 0),
        decreases n - round + if going { 1int } else { 0int },
    {
        let ghost before = rank@;
        let mut changed = false;
        let mut i: usize = 0;
        while i < n
            invariant
                n == types.len(),
                views == types.deep_view(),
                rank.len() == n,
                round < UNRANKED - 1,
                i <= n,
                spec_sound(views, before, round),
                spec_sound(views, rank@, round),
                forall|j: int| 0 <= j < n && before[j] != UNRANKED ==> rank@[j] == before[j],
                forall|j: int| 0 <= j < n && rank@[j] != before[j] ==> rank@[j] == round,
                changed == (rank@ != before),
                spec_round(views, rank@, round, i as int) == spec_round(views, before, round, 0),
            decreases n - i,
        {
            proof {
                assert(views[i as int] == types@[i as int].deep_view());
                assert(rank.deep_view() =~= rank@);
            }
            if rank[i] == UNRANKED && ready(&types[i], &rank, round) {
                let ghost old_rank = rank@;
                rank[i] = round;
                changed = true;
                proof {
                    assert(rank@ =~= old_rank.update(i as int, round));
                    assert(rank@[i as int] != before[i as int]);
                    let members = spec_members_of(views[i as int].body);
                    assert forall|a: int, k: int|
                        0 <= a < views.len() && rank@[a] != UNRANKED && 0 <= k
                            < spec_members_of(views[a].body).len() && (
                        #[trigger] spec_members_of(views[a].body)[k]).by_value() implies {
                        let h = spec_members_of(views[a].body)[k].decor_type.handle;
                        1 <= h.0 <= views.len() && rank@[h.0 - 1] != UNRANKED && rank@[h.0 - 1]
                            < rank@[a]
                    } by {
                        let h = spec_members_of(views[a].body)[k].decor_type.handle;
                        if a == i {
                            lemma_ready(members, old_rank, round, 0, k);
                            assert(old_rank[h.0 - 1] < round);
                        } else {
                            assert(old_rank[a] == rank@[a]);
                            assert(old_rank[h.0 - 1] < old_rank[a]);
                            assert(old_rank[h.0 - 1] != UNRANKED);
                        }
                    }
                }
            }
            i += 1;
        }
        if changed {
            round += 1;
            proof {
                assert forall|j: int| 0 <= j < rank@.len() && rank@[j] != UNRANKED implies (
                #[trigger] rank@[j]) <= round by {}
            }
        } else {
            going = false;
            proof {
                assert(rank@ =~= before);
            }
        }
    }
    let ghost done = spec_rounds(views, Seq::new(views.len(), |i: int| UNRANKED), 0);
    proof {
        if going {
            assert(spec_rounds(views, rank@, round) == rank@);
        }
        assert(rank@ == done);
    }
    let mut i: usize = 0;
    while i < n
        invariant
            n == rank.len(),
            i <= n,
            rank@ == done,
            views == types.deep_view(),
            done == spec_rounds(views, Seq::new(views.len(), |i: int| UNRANKED), 0),
            forall|j: int| 0 <= j < i ==> rank@[j] != UNRANKED,
            spec_all_ranked(rank@, i as int) == spec_all_ranked(rank@, 0),
        decreases n - i,
    {
        if rank[i] == UNRANKED {
            return None;
        }
        i += 1;
    }
    proof {
        assert forall|j: int| 0 <= j < rank@.len() && rank@[j] != UNRANKED implies (
        #[trigger] rank@[j]) <= UNRANKED by {
            assert(rank@[j] <= round);
        }
    }
    Some(rank)
}

} // verus!
