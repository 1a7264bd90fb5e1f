//! Dynamic bodies and their spawn-time attributes.

use vstd::prelude::*;

use crate::assets::AssetHandles;
use crate::params::Params;
use crate::params::Scalar;

verus! {

/// The two kinds of dynamic body the sandbox populates.
#[derive(Clone, Copy, Debug, PartialEq, Eq, Structural)]
pub enum BodyKind {
    /// A sphere of radius 0.5.
    Ball,
    /// A cube with edge length 1.
    Cube,
}

/// A point in world space, in hundredths of a world unit.
///
/// The spawner places bodies on a grid of hundredth-unit steps inside the
/// randomization volume; the hosting layer divides by 100 to obtain the
/// engine's coordinates.  `y` is the vertical axis.
#[derive(Clone, Copy, Debug, PartialEq, Eq, Structural)]
pub struct Position {
    pub x: i32,
    pub y: i32,
    pub z: i32,
}

/// Both horizontal axes of a spawn position lie in [-50, 50] world units.
pub open spec fn in_horizontal_range(c: int) -> bool {
    -5000 <= c <= 5000
}

/// The vertical axis of a spawn position lies in [20, 120] world units.
pub open spec fn in_vertical_range(c: int) -> bool {
    2000 <= c <= 12000
}

/// The whole position lies inside the randomization volume: a 100 by 100
/// horizontal square centered at the origin, at a height between 20 and 120.
pub open spec fn position_in_spawn_range(p: Position) -> bool {
    &&& in_horizontal_range(p.x as int)
    &&& in_vertical_range(p.y as int)
    &&& in_horizontal_range(p.z as int)
}

/// One dynamic body, as described to the physics engine at creation.
///
/// Restitution and density are captured from the parameter record at
/// creation time and never re-linked afterward; the display handles are
/// copied from the startup asset record.
#[derive(Clone, Copy, Debug, PartialEq, Eq, Structural)]
pub struct Body {
    pub kind: BodyKind,
    pub mesh: u64,
    pub material: u64,
    pub position: Position,
    pub restitution: Scalar,
    pub density: Scalar,
}

/// `b` is a body as the spawner creates it on a tick that reads the
/// parameter record `ps` and the asset record `assets`: of kind `kind`,
/// placed inside the randomization volume, carrying the current restitution
/// and density scales and the kind's display handles.
pub open spec fn spawned_body(b: Body, kind: BodyKind, assets: AssetHandles, ps: Params) -> bool {
    &&& b.kind == kind
    &&& b.mesh == assets.mesh_for_spec(kind)
    &&& b.material == assets.material_for_spec(kind)
    &&& position_in_spawn_range(b.position)
    &&& b.restitution == ps.restitution_scale
    &&& b.density == ps.density_scale
}

/// How many bodies of kind `k` the sequence holds.
pub closed spec fn count_kind(s: Seq<Body>, k: BodyKind) -> int
    decreases s.len(),
{
    if s.len() == 0 {
        0
    } else {
        count_kind(s.drop_last(), k) + (if s.last().kind == k {
            1int
        } else {
            0int
        })
    }
}

/// Appending one body raises the count of its own kind by one and leaves
/// the other kind's count unchanged.
pub proof fn lemma_count_kind_push(s: Seq<Body>, b: Body, k: BodyKind)
    ensures
        count_kind(s.push(b), k) == count_kind(s, k) + (if b.kind == k {
            1int
        } else {
            0int
        }),
{
    assert(s.push(b).drop_last() =~= s);
    assert(s.push(b).last() == b);
}

/// Counting is additive over concatenation.
pub proof fn lemma_count_kind_add(a: Seq<Body>, b: Seq<Body>, k: BodyKind)
    ensures
        count_kind(a + b, k) == count_kind(a, k) + count_kind(b, k),
    decreases b.len(),
{
    if b.len() == 0 {
        assert(a + b =~= a);
    } else {
        lemma_count_kind_add(a, b.drop_last(), k);
        assert((a + b).drop_last() =~= a + b.drop_last());
        assert((a + b).last() == b.last());
    }
}

/// In a sequence whose bodies all have kind `k`, the count of `k` is the
/// length and the count of any other kind is zero.
pub proof fn lemma_count_kind_uniform(s: Seq<Body>, k: BodyKind, other: BodyKind)
    requires
        forall|i: int| 0 <= i < s.len() ==> s[i].kind == k,
        other != k,
    ensures
        count_kind(s, k) == s.len(),
        count_kind(s, other) == 0,
    decreases s.len(),
{
    if s.len() > 0 {
        lemma_count_kind_uniform(s.drop_last(), k, other);
    }
}

/// Count the bodies of kind `k` in a list, as the cleanup's tests and the
/// hosting layer observe it.
pub fn count_kind_in(bodies: &Vec<Body>, k: BodyKind) -> (n: usize)
    ensures
        n == count_kind(bodies@, k),
{
    let mut n: usize = 0;
    let mut i: usize = 0;
    while i < bodies.len()
        invariant
            i <= bodies@.len(),
            n == count_kind(bodies@.take(i as int), k),
            n <= i,
        decreases bodies@.len() - i,
    {
        proof {
            lemma_count_kind_push(bodies@.take(i as int), bodies@[i as int], k);
            assert(bodies@.take(i as int).push(bodies@[i as int]) =~= bodies@.take(i + 1));
        }
        if bodies[i].kind == k {
            n = n + 1;
        }
        i = i + 1;
    }
    proof {
        assert(bodies@.take(bodies@.len() as int) =~= bodies@);
    }
    n
}

} // verus!
