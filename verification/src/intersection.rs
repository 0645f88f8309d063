//! Which of the surfaces along a ray is the one that is seen.
//!
//! Distances along a ray enter this module as distance keys: unsigned
//! integers that are ordered as the distances are and equal where the
//! distances are equal. Of a positive IEEE-754 number the bit pattern is such
//! a key, so a hit distance, which lies above the self-intersection epsilon,
//! can be turned into its key and back without loss.

use vstd::prelude::*;

verus! {

/// The crossing of a sphere's boundary that a ray reports.
#[derive(Clone, Copy, Debug, PartialEq, Eq, Structural)]
pub struct SphereHit {
    /// Key of the distance at which the boundary is crossed.
    pub distance: u64,
    /// The ray comes from outside the sphere. The medium before the crossing
    /// then counts as the surroundings and the medium behind it as the
    /// sphere's material, and the normal points away from the centre. Where
    /// this is `false` the ray starts inside the sphere: the media are the
    /// other way round, and the normal points to the centre.
    pub entering: bool,
}

/// The crossing reported for the two roots of the ray-sphere equation: `t1`,
/// where the ray enters the sphere, and `t2`, where it leaves. Each is given
/// by its key where the root is real and lies above the epsilon.
///
/// The crossing is always the one at `t2`, the exit: with both roots the exit
/// is preferred to the entry, and the ray counts as coming from outside; with
/// `t2` alone the ray starts inside the sphere. Without `t2` the sphere is
/// missed or lies behind the ray, and nothing is reported, whatever `t1`
/// holds.
pub open spec fn sphere_hit_of(t1: Option<u64>, t2: Option<u64>) -> Option<SphereHit> {
    match t2 {
        None => None,
        Some(exit) => Some(SphereHit { distance: exit, entering: t1 is Some }),
    }
}

/// Chooses the crossing that a sphere contributes to the nearest-hit search.
pub fn sphere_hit(t1: Option<u64>, t2: Option<u64>) -> (hit: Option<SphereHit>)
    ensures
        hit == sphere_hit_of(t1, t2),
{
    match t2 {
        None => None,
        Some(exit) => Some(SphereHit { distance: exit, entering: t1.is_some() }),
    }
}

/// `i` is the position of the visible hit among `distances`, which holds for
/// each object of the scene, in scene order, the key of its hit distance or
/// `None` where the ray misses it: no hit is nearer, and every hit before it
/// in scene order is strictly farther.
pub open spec fn is_closest(distances: Seq<Option<u64>>, i: int) -> bool {
    &&& 0 <= i < distances.len()
    &&& distances[i] is Some
    &&& forall|j: int|
        0 <= j < distances.len() && distances[j] is Some ==> distances[i]->0 <= (
        #[trigger] distances[j])->0
    &&& forall|j: int|
        0 <= j < i && distances[j] is Some ==> distances[i]->0 < (#[trigger] distances[j])->0
}

/// No object is hit.
pub open spec fn all_miss(distances: Seq<Option<u64>>) -> bool {
    forall|j: int| 0 <= j < distances.len() ==> (#[trigger] distances[j]) is None
}

/// Finds the visible hit: the smallest distance, and among equal distances
/// the object that comes first in scene order. `None` exactly where the ray
/// hits nothing.
pub fn closest(distances: &[Option<u64>]) -> (found: Option<usize>)
    ensures
        match found {
            Some(i) => is_closest(distances@, i as int),
            None => all_miss(distances@),
        },
{
    let mut found: Option<usize> = None;
    let mut best: u64 = 0;
    let mut k: usize = 0;
    while k < distances.len()
        invariant
            k <= distances.len(),
            match found {
                Some(i) => {
                    &&& is_closest(distances@.take(k as int), i as int)
                    &&& distances@[i as int] == Some(best)
                },
                None => all_miss(distances@.take(k as int)),
            },
        decreases distances.len() - k,
    {
        let ghost before = distances@.take(k as int);
        let ghost after = distances@.take(k + 1);
        assert(forall|j: int| 0 <= j < k ==> before[j] == after[j]);
        assert(after[k as int] == distances@[k as int]);
        match distances[k] {
            None => {},
            Some(d) => {
                let nearer = match found {
                    Some(_) => d < best,
                    None => true,
                };
                if nearer {
                    found = Some(k);
                    best = d;
                }
            },
        }
        k += 1;
    }
    assert(distances@.take(k as int) == distances@);
    found
}

/// Of two roots above the epsilon a sphere reports the exit, never the entry
/// where the two differ: the reported distance is the larger of the two.
pub proof fn lemma_sphere_hit_is_the_exit(t1: Option<u64>, t2: Option<u64>)
    requires
        t1 is Some && t2 is Some ==> t1->0 <= t2->0,
    ensures
        sphere_hit_of(t1, t2) is Some <==> t2 is Some,
        sphere_hit_of(t1, t2) matches Some(hit) ==> {
            &&& hit.distance == t2->0
            &&& t1 is Some ==> hit.distance >= t1->0
            &&& hit.entering <==> t1 is Some
        },
{
}

/// The visible hit is determined by the distances: two positions that both
/// qualify are the same position.
pub proof fn lemma_closest_is_unique(distances: Seq<Option<u64>>, i: int, j: int)
    requires
        is_closest(distances, i),
        is_closest(distances, j),
    ensures
        i == j,
{
    if i < j {
        assert(distances[j]->0 < distances[i]->0);
        assert(distances[i]->0 <= distances[j]->0);
    } else if j < i {
        assert(distances[i]->0 < distances[j]->0);
        assert(distances[j]->0 <= distances[i]->0);
    }
}

/// An object that is added at the end of the scene takes the view from the
/// visible hit only where it is strictly nearer.
pub proof fn lemma_closest_after_push(distances: Seq<Option<u64>>, i: int, added: Option<u64>)
    requires
        is_closest(distances, i),
    ensures
        added is Some && added->0 < distances[i]->0 ==> is_closest(
            distances.push(added),
            distances.len() as int,
        ),
        !(added is Some && added->0 < distances[i]->0) ==> is_closest(distances.push(added), i),
{
    let longer = distances.push(added);
    assert(forall|j: int| 0 <= j < distances.len() ==> longer[j] == distances[j]);
    assert(longer[distances.len() as int] == added);
}

} // verus!
