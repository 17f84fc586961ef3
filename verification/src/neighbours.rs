//! Which of the other boids count for one boid, and as what.

use vstd::multiset::{group_multiset_axioms, group_multiset_properties, Multiset};
use vstd::prelude::*;
use vstd::seq_lib::to_multiset_build;
use crate::boid::{BoidViewConfig, Proximity};
use crate::collision_group::{lemma_intersection_is_mutual, BoidCollisionGroup};
use crate::scalar::Scalar;

verus! {

/// What the flock knows of one of its members: a name that no other member
/// has, and the collision groups it was given, if any.
#[derive(Clone, Copy, Debug)]
pub struct FlockMember {
    pub id: u64,
    pub group: Option<BoidCollisionGroup>,
}

impl FlockMember {
    /// Whether `self` takes notice of `other`: it is another member, and
    /// where both were given collision groups, they have one in common.
    pub open spec fn spec_interacts(&self, other: FlockMember) -> bool {
        &&& self.id != other.id
        &&& match (self.group, other.group) {
            (Some(own), Some(theirs)) => own.spec_intersects(theirs),
            _ => true,
        }
    }

    /// Whether `self` takes notice of `other`.
    pub fn interacts(&self, other: &FlockMember) -> (result: bool)
        ensures
            result == self.spec_interacts(*other),
    {
        if self.id == other.id {
            return false;
        }
        match self.group {
            Some(own) => match other.group {
                Some(theirs) => own.intersects(theirs),
                None => true,
            },
            None => true,
        }
    }
}

/// A member of the flock as one boid meets it in a step: who it is, and how
/// far away.
#[derive(Clone, Copy, Debug)]
pub struct Sighting {
    pub member: FlockMember,
    pub distance: Scalar,
}

/// One of the boids that count for a boid in a step.
#[derive(Clone, Copy, Debug)]
pub struct Neighbour {
    /// Its place among the sightings.
    pub index: usize,
    /// Whether it is only seen, too close, or at no distance at all. Never
    /// `Beyond`.
    pub proximity: Proximity,
}

/// As what the sighting counts for the subject: as nothing where the subject
/// takes no notice of the member, else by its distance.
pub open spec fn spec_proximity(
    subject: FlockMember,
    view: BoidViewConfig,
    sighting: Sighting,
) -> Proximity {
    if subject.spec_interacts(sighting.member) {
        view.spec_classify(sighting.distance)
    } else {
        Proximity::Beyond
    }
}

/// As what the sighting counts for the subject.
pub fn proximity(subject: &FlockMember, view: &BoidViewConfig, sighting: &Sighting) -> (result:
    Proximity)
    ensures
        result == spec_proximity(*subject, *view, *sighting),
{
    if subject.interacts(&sighting.member) {
        view.classify(sighting.distance)
    } else {
        Proximity::Beyond
    }
}

/// Whether the sighting counts for the subject at all.
pub open spec fn counts(subject: FlockMember, view: BoidViewConfig, sighting: Sighting) -> bool {
    spec_proximity(subject, view, sighting) != Proximity::Beyond
}

/// The sightings that count for the subject, in their order.
pub open spec fn counted(
    subject: FlockMember,
    view: BoidViewConfig,
    sightings: Seq<Sighting>,
) -> Seq<Sighting> {
    sightings.filter(|sighting: Sighting| counts(subject, view, sighting))
}

/// The sightings at the places of the neighbours.
pub open spec fn sighted(neighbours: Seq<Neighbour>, sightings: Seq<Sighting>) -> Seq<Sighting> {
    neighbours.map_values(|neighbour: Neighbour| sightings[neighbour.index as int])
}

/// Whether one of the neighbours stands at the given place among the
/// sightings.
pub open spec fn has_place(neighbours: Seq<Neighbour>, place: int) -> bool {
    exists|k: int| 0 <= k < neighbours.len() && (#[trigger] neighbours[k]).index == place
}

/// The neighbours of the subject among the sightings: every sighting that
/// counts for it, in the order of the sightings, each with its place and
/// with what it counts as.
pub fn neighbours(subject: &FlockMember, view: &BoidViewConfig, sightings: &Vec<Sighting>) -> (result:
    Vec<Neighbour>)
    ensures
        result.len() <= sightings.len(),
        forall|k: int|
            0 <= k < result.len() ==> {
                &&& (#[trigger] result[k]).index < sightings.len()
                &&& counts(*subject, *view, sightings[result[k].index as int])
                &&& result[k].proximity == spec_proximity(
                    *subject,
                    *view,
                    sightings[result[k].index as int],
                )
            },
        forall|k: int, l: int|
            0 <= k < l < result.len() ==> (#[trigger] result[k]).index < (#[trigger] result[l]).index,
        forall|j: int|
            0 <= j < sightings.len() && counts(*subject, *view, sightings[j]) ==> #[trigger] has_place(
                result@,
                j,
            ),
        sighted(result@, sightings@) == counted(*subject, *view, sightings@),
{
    let mut result: Vec<Neighbour> = Vec::new();
    let mut index: usize = 0;
    proof {
        reveal(Seq::filter);
        assert(sightings@.take(0).len() == 0);
        assert(sighted(result@, sightings@) =~= counted(*subject, *view, sightings@.take(0)));
    }
    while index < sightings.len()
        invariant
            index <= sightings.len(),
            result.len() <= index,
            forall|k: int|
                0 <= k < result.len() ==> {
                    &&& (#[trigger] result[k]).index < index
                    &&& counts(*subject, *view, sightings[result[k].index as int])
                    &&& result[k].proximity == spec_proximity(
                        *subject,
                        *view,
                        sightings[result[k].index as int],
                    )
                },
            forall|k: int, l: int|
                0 <= k < l < result.len() ==> (#[trigger] result[k]).index < (
                #[trigger] result[l]).index,
            forall|j: int|
                0 <= j < index && counts(*subject, *view, sightings[j]) ==> #[trigger] has_place(
                    result@,
                    j,
                ),
            sighted(result@, sightings@) == counted(*subject, *view, sightings@.take(index as int)),
        decreases sightings.len() - index,
    {
        let found = proximity(subject, view, &sightings[index]);
        let ghost before = result@;
        match found {
            Proximity::Beyond => {},
            _ => {
                result.push(Neighbour { index, proximity: found });
            },
        }
        proof {
            let taken = sightings@.take(index + 1);
            reveal(Seq::filter);
            assert(taken.drop_last() =~= sightings@.take(index as int));
            assert(taken.last() == sightings[index as int]);
            assert(sighted(result@, sightings@) =~= counted(*subject, *view, taken));
            assert forall|j: int|
                0 <= j < index + 1 && counts(*subject, *view, sightings[j]) implies #[trigger] has_place(
                result@,
                j,
            ) by {
                if j < index {
                    assert(has_place(before, j));
                    let k = choose|k: int| 0 <= k < before.len() && (#[trigger] before[k]).index == j;
                    assert(result[k].index == j);
                } else {
                    assert(result[before.len() as int].index == j);
                }
            }
        }
        index += 1;
    }
    assert(sightings@.take(index as int) =~= sightings@);
    result
}

/// To take notice is mutual: one boid takes notice of another just when
/// the other takes notice of it.
pub proof fn lemma_notice_is_mutual(a: FlockMember, b: FlockMember)
    ensures
        a.spec_interacts(b) == b.spec_interacts(a),
{
    if a.group is Some && b.group is Some {
        lemma_intersection_is_mutual(a.group.unwrap(), b.group.unwrap());
    }
}

/// Two boids that see alike and are equally far from each other count for
/// each other as the same.
pub proof fn lemma_proximity_is_mutual(
    a: FlockMember,
    b: FlockMember,
    view: BoidViewConfig,
    distance: Scalar,
)
    ensures
        spec_proximity(a, view, Sighting { member: b, distance }) == spec_proximity(
            b,
            view,
            Sighting { member: a, distance },
        ),
{
    lemma_notice_is_mutual(a, b);
}

/// Two boids whose collision groups have nothing in common count for
/// nothing with each other, whatever they see and however close they are.
pub proof fn lemma_separate_groups_never_count(
    a: FlockMember,
    b: FlockMember,
    view_of_a: BoidViewConfig,
    view_of_b: BoidViewConfig,
    from_a: Scalar,
    from_b: Scalar,
)
    requires
        a.group is Some,
        b.group is Some,
        !a.group.unwrap().spec_intersects(b.group.unwrap()),
    ensures
        spec_proximity(a, view_of_a, Sighting { member: b, distance: from_a }) == Proximity::Beyond,
        spec_proximity(b, view_of_b, Sighting { member: a, distance: from_b }) == Proximity::Beyond,
{
    lemma_notice_is_mutual(a, b);
}

/// No boid counts for itself, and a boid without collision groups, or
/// facing one without, takes notice of every other boid.
pub proof fn lemma_who_takes_notice(a: FlockMember, b: FlockMember)
    ensures
        !a.spec_interacts(a),
        a.id != b.id && (a.group is None || b.group is None) ==> a.spec_interacts(b),
{
}

/// To pick from a sequence what meets a condition, and to forget the order,
/// comes to the same as to forget the order first.
proof fn lemma_filter_forgets_order<A>(items: Seq<A>, condition: spec_fn(A) -> bool)
    ensures
        items.filter(condition).to_multiset() == items.to_multiset().filter(condition),
    decreases items.len(),
{
    broadcast use group_multiset_axioms, group_multiset_properties;

    reveal(Seq::filter);
    if items.len() == 0 {
        items.to_multiset_ensures();
        assert(items.filter(condition).to_multiset() =~= items.to_multiset().filter(condition));
    } else {
        let front = items.drop_last();
        let last = items.last();
        lemma_filter_forgets_order(front, condition);
        assert(items =~= front.push(last));
        to_multiset_build(front, last);
        if condition(last) {
            to_multiset_build(front.filter(condition), last);
        }
        assert(items.filter(condition).to_multiset() =~= items.to_multiset().filter(condition));
    }
}

/// Which sightings count for a boid, and how often each, does not depend on
/// the order in which the flock is gone through.
pub proof fn lemma_order_of_sightings_is_immaterial(
    subject: FlockMember,
    view: BoidViewConfig,
    first: Seq<Sighting>,
    second: Seq<Sighting>,
)
    requires
        first.to_multiset() == second.to_multiset(),
    ensures
        counted(subject, view, first).to_multiset() == counted(subject, view, second).to_multiset(),
{
    let condition = |sighting: Sighting| counts(subject, view, sighting);
    lemma_filter_forgets_order(first, condition);
    lemma_filter_forgets_order(second, condition);
}

} // verus!
