//! The lifecycle state machine: the spawner and the cleanup.
//!
//! Both actions run on every tick, but each first inspects the lifecycle
//! flag, so at most one fires: the spawner only in `Idle`, the cleanup only
//! in `ResetRequested`.  The spawner flips the flag to `Running` as its
//! last step, so a spawn cannot re-fire until a full reset cycle brings the
//! flag back to `Idle`.

use vstd::prelude::*;

use crate::assets::AssetHandles;
use crate::body::Body;
use crate::body::BodyKind;
use crate::body::spawned_body;
use crate::params::LifecycleState;
use crate::params::Params;
use crate::params::Scalar;
use crate::random::random_spawn_position;

verus! {

/// `batch` is exactly what one spawn event creates under the parameter
/// record `ps` and the asset record `assets`: first `ps.cube_count` cubes,
/// then `ps.ball_count` balls, every one placed inside the randomization
/// volume and carrying the restitution and density scales that `ps` held
/// when the event fired.
pub open spec fn spawn_batch_ok(batch: Seq<Body>, ps: Params, assets: AssetHandles) -> bool {
    &&& batch.len() == ps.cube_count + ps.ball_count
    &&& forall|i: int|
        0 <= i < ps.cube_count ==> spawned_body(#[trigger] batch[i], BodyKind::Cube, assets, ps)
    &&& forall|i: int|
        ps.cube_count <= i < batch.len() ==> spawned_body(
            #[trigger] batch[i],
            BodyKind::Ball,
            assets,
            ps,
        )
}

/// The spawn action.
///
/// If the lifecycle flag is `Idle`, create the requested bodies — all cubes
/// first, then all balls, each at a fresh random position, each capturing
/// the current restitution and density scales — and flip the flag to
/// `Running` as the very last step.  In any other state, do nothing and
/// return an empty batch.  The returned batch is what the physics engine
/// is asked to create; the caller owns the bodies from here on.
pub fn object_spawner(params: &mut Params, assets: &AssetHandles) -> (batch: Vec<Body>)
    ensures
        old(params).lifecycle_state == LifecycleState::Idle ==> {
            &&& spawn_batch_ok(batch@, *old(params), *assets)
            &&& *final(params) == (Params {
                lifecycle_state: LifecycleState::Running,
                ..*old(params)
            })
        },
        old(params).lifecycle_state != LifecycleState::Idle ==> {
            &&& batch@.len() == 0
            &&& *final(params) == *old(params)
        },
{
    let mut batch: Vec<Body> = Vec::new();
    if params.lifecycle_state == LifecycleState::Idle {
        let mut i: usize = 0;
        while i < params.cube_count
            invariant
                i <= params.cube_count,
                batch@.len() == i,
                *params == *old(params),
                forall|j: int|
                    0 <= j < i ==> spawned_body(
                        #[trigger] batch@[j],
                        BodyKind::Cube,
                        *assets,
                        *params,
                    ),
            decreases params.cube_count - i,
        {
            let b = Body {
                kind: BodyKind::Cube,
                mesh: assets.cube_mesh,
                material: assets.cube_material,
                position: random_spawn_position(),
                restitution: params.restitution_scale,
                density: params.density_scale,
            };
            batch.push(b);
            i = i + 1;
        }
        let mut j: usize = 0;
        while j < params.ball_count
            invariant
                j <= params.ball_count,
                batch@.len() == params.cube_count + j,
                *params == *old(params),
                forall|k: int|
                    0 <= k < params.cube_count ==> spawned_body(
                        #[trigger] batch@[k],
                        BodyKind::Cube,
                        *assets,
                        *params,
                    ),
                forall|k: int|
                    params.cube_count <= k < batch@.len() ==> spawned_body(
                        #[trigger] batch@[k],
                        BodyKind::Ball,
                        *assets,
                        *params,
                    ),
            decreases params.ball_count - j,
        {
            let b = Body {
                kind: BodyKind::Ball,
                mesh: assets.ball_mesh,
                material: assets.ball_material,
                position: random_spawn_position(),
                restitution: params.restitution_scale,
                density: params.density_scale,
            };
            batch.push(b);
            j = j + 1;
        }
        params.lifecycle_state = LifecycleState::Running;
    }
    batch
}

/// The cleanup action.
///
/// If the lifecycle flag is `ResetRequested`, consume it: flip the flag to
/// `Idle` and return the friction scale read at this very moment, which the
/// caller must both apply to the platform and accompany with the
/// destruction of every dynamic body.  In any other state, do nothing and
/// return `None`.
pub fn object_cleanup(params: &mut Params) -> (r: Option<Scalar>)
    ensures
        old(params).lifecycle_state == LifecycleState::ResetRequested ==> {
            &&& r == Some(old(params).friction_scale)
            &&& *final(params) == (Params { lifecycle_state: LifecycleState::Idle, ..*old(params) })
        },
        old(params).lifecycle_state != LifecycleState::ResetRequested ==> {
            &&& r == None::<Scalar>
            &&& *final(params) == *old(params)
        },
{
    if params.lifecycle_state == LifecycleState::ResetRequested {
        let friction = params.friction_scale;
        params.lifecycle_state = LifecycleState::Idle;
        Some(friction)
    } else {
        None
    }
}

} // verus!
