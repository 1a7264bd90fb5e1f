//! The sandbox world: the parameter record, the asset record, the dynamic
//! bodies the physics engine owns, and the platform — advanced one tick at
//! a time.

use vstd::prelude::*;

use crate::assets::AssetHandles;
use crate::body::Body;
use crate::body::BodyKind;
use crate::body::count_kind;
use crate::body::lemma_count_kind_add;
use crate::body::lemma_count_kind_uniform;
use crate::body::position_in_spawn_range;
use crate::body::spawned_body;
use crate::lifecycle::object_cleanup;
use crate::lifecycle::object_spawner;
use crate::lifecycle::spawn_batch_ok;
use crate::params::LifecycleState;
use crate::params::Params;
use crate::platform::Platform;
use crate::platform::TiltInput;
use crate::platform::TiltStep;
use crate::platform::tilt_steps_spec;

verus! {

/// The whole simulation state that one tick reads and writes.
#[derive(Clone, Debug, PartialEq, Eq)]
pub struct World {
    pub params: Params,
    pub assets: AssetHandles,
    pub bodies: Vec<Body>,
    pub platform: Platform,
}

/// The tilt controller's share of a tick: friction untouched, this tick's
/// steps composed onto the orientation in their fixed order.
pub open spec fn platform_effect(pre: Platform, post: Platform, input: TiltInput) -> bool {
    &&& post.friction == pre.friction
    &&& post.orientation@ == pre.orientation@ + tilt_steps_spec(input)
}

/// What a tick does from `Idle`: the spawn action fires.  The new body
/// list is exactly one spawn batch under the pre-tick parameter record,
/// the flag flips to `Running`, and the platform sees only the tilt
/// controller.
pub open spec fn spawn_effect(pre: World, post: World, input: TiltInput) -> bool {
    &&& post.params == (Params { lifecycle_state: LifecycleState::Running, ..pre.params })
    &&& post.assets == pre.assets
    &&& spawn_batch_ok(post.bodies@, pre.params, pre.assets)
    &&& platform_effect(pre.platform, post.platform, input)
}

/// What a tick does from `Running`: neither action fires.  Parameters and
/// bodies are untouched; only the tilt controller acts.
pub open spec fn run_effect(pre: World, post: World, input: TiltInput) -> bool {
    &&& post.params == pre.params
    &&& post.assets == pre.assets
    &&& post.bodies@ == pre.bodies@
    &&& platform_effect(pre.platform, post.platform, input)
}

/// What a tick does from `ResetRequested`: the cleanup action fires.
/// Every dynamic body is destroyed, the platform's friction becomes the
/// friction scale read on this very tick, and the flag flips to `Idle`.
pub open spec fn cleanup_effect(pre: World, post: World, input: TiltInput) -> bool {
    &&& post.params == (Params { lifecycle_state: LifecycleState::Idle, ..pre.params })
    &&& post.assets == pre.assets
    &&& post.bodies@.len() == 0
    &&& post.platform.friction == pre.params.friction_scale
    &&& post.platform.orientation@ == pre.platform.orientation@ + tilt_steps_spec(input)
}

/// The full effect of one tick, determined solely by the lifecycle flag at
/// the start of the tick.
pub open spec fn tick_rel(pre: World, post: World, input: TiltInput) -> bool {
    match pre.params.lifecycle_state {
        LifecycleState::Idle => spawn_effect(pre, post, input),
        LifecycleState::Running => run_effect(pre, post, input),
        LifecycleState::ResetRequested => cleanup_effect(pre, post, input),
    }
}

impl World {
    /// The cross-tick invariant: in `Idle` no dynamic body exists.  It
    /// holds at startup and every tick preserves it.
    pub open spec fn wf(self) -> bool {
        self.params.lifecycle_state == LifecycleState::Idle ==> self.bodies@.len() == 0
    }

    /// Build the startup world.  Taking the resolved asset record here
    /// makes asset resolution a hard startup-ordering dependency: no tick,
    /// and so no spawn, can run before the handles exist.
    pub fn new(assets: AssetHandles) -> (w: World)
        ensures
            w.wf(),
            w.params == Params::init(),
            w.assets == assets,
            w.bodies@.len() == 0,
            w.platform.friction.bits == crate::params::SCALAR_HALF_BITS,
            w.platform.orientation@ == Seq::<TiltStep>::empty(),
    {
        World { params: Params::new(), assets, bodies: Vec::new(), platform: Platform::new() }
    }

    /// The panel's reset trigger, between ticks: flips the flag to
    /// `ResetRequested` and touches nothing else.
    pub fn request_reset(&mut self)
        ensures
            final(self).wf(),
            final(self).params == (Params {
                lifecycle_state: LifecycleState::ResetRequested,
                ..old(self).params
            }),
            final(self).assets == old(self).assets,
            final(self).bodies@ == old(self).bodies@,
            final(self).platform == old(self).platform,
    {
        self.params.request_reset();
    }

    /// One tick: the spawn action, then the cleanup action — each gated on
    /// the lifecycle flag, so at most one fires — then the tilt
    /// controller.  The physics step and the draw that follow in a frame
    /// belong to the external collaborators.
    pub fn tick(&mut self, input: TiltInput)
        requires
            old(self).wf(),
        ensures
            final(self).wf(),
            tick_rel(*old(self), *final(self), input),
    {
        let mut batch = object_spawner(&mut self.params, &self.assets);
        let ghost spawned: Seq<Body> = batch@;
        self.bodies.append(&mut batch);
        proof {
            if old(self).params.lifecycle_state == LifecycleState::Idle {
                assert(self.bodies@ =~= spawned);
            } else {
                assert(self.bodies@ =~= old(self).bodies@);
            }
        }
        let cleanup = object_cleanup(&mut self.params);
        if let Some(friction) = cleanup {
            self.bodies.clear();
            self.platform.set_friction(friction);
        }
        self.platform.platform_movement(input);
    }
}

/// The spawn action fires on a tick exactly when the tick starts in
/// `Idle`.
pub open spec fn spawn_fires(pre: World) -> bool {
    pre.params.lifecycle_state == LifecycleState::Idle
}

/// The cleanup action fires on a tick exactly when the tick starts in
/// `ResetRequested`.
pub open spec fn cleanup_fires(pre: World) -> bool {
    pre.params.lifecycle_state == LifecycleState::ResetRequested
}

/// On any tick, at most one of the spawn and cleanup actions fires, and
/// which one — and the tick's whole effect — is fully determined by the
/// lifecycle state at the start of that tick.
pub proof fn lemma_actions_exclusive(pre: World, post: World, input: TiltInput)
    requires
        tick_rel(pre, post, input),
    ensures
        !(spawn_fires(pre) && cleanup_fires(pre)),
        spawn_fires(pre) ==> spawn_effect(pre, post, input),
        cleanup_fires(pre) ==> cleanup_effect(pre, post, input),
        !spawn_fires(pre) && !cleanup_fires(pre) ==> run_effect(pre, post, input),
{
}

/// A spawn batch holds exactly the requested number of bodies of each
/// kind: `cube_count` cubes and `ball_count` balls.
pub proof fn lemma_spawn_counts(batch: Seq<Body>, ps: Params, assets: AssetHandles)
    requires
        spawn_batch_ok(batch, ps, assets),
    ensures
        count_kind(batch, BodyKind::Cube) == ps.cube_count,
        count_kind(batch, BodyKind::Ball) == ps.ball_count,
{
    let cubes = batch.take(ps.cube_count as int);
    let balls = batch.skip(ps.cube_count as int);
    assert(batch =~= cubes + balls);
    assert forall|i: int| 0 <= i < cubes.len() implies cubes[i].kind == BodyKind::Cube by {
        assert(spawned_body(batch[i], BodyKind::Cube, assets, ps));
    }
    assert forall|i: int| 0 <= i < balls.len() implies balls[i].kind == BodyKind::Ball by {
        assert(spawned_body(batch[i + ps.cube_count], BodyKind::Ball, assets, ps));
    }
    lemma_count_kind_add(cubes, balls, BodyKind::Cube);
    lemma_count_kind_add(cubes, balls, BodyKind::Ball);
    lemma_count_kind_uniform(cubes, BodyKind::Cube, BodyKind::Ball);
    lemma_count_kind_uniform(balls, BodyKind::Ball, BodyKind::Cube);
    assert(count_kind(batch, BodyKind::Cube) == count_kind(cubes + balls, BodyKind::Cube));
    assert(count_kind(batch, BodyKind::Ball) == count_kind(cubes + balls, BodyKind::Ball));
}

/// After a tick that starts in `Idle` with `cube_count = c` and
/// `ball_count = b`, exactly `c` cube bodies and `b` ball bodies exist and
/// the lifecycle state is `Running`.
pub proof fn lemma_spawn_tick_counts(pre: World, post: World, input: TiltInput)
    requires
        tick_rel(pre, post, input),
        pre.params.lifecycle_state == LifecycleState::Idle,
    ensures
        count_kind(post.bodies@, BodyKind::Cube) == pre.params.cube_count,
        count_kind(post.bodies@, BodyKind::Ball) == pre.params.ball_count,
        post.params.lifecycle_state == LifecycleState::Running,
{
    lemma_spawn_counts(post.bodies@, pre.params, pre.assets);
}

/// Every body a spawn event creates lies inside the randomization volume:
/// horizontal coordinates in [-50, 50] and the vertical coordinate in
/// [20, 120] world units, ends included.
pub proof fn lemma_spawn_positions_in_range(batch: Seq<Body>, ps: Params, assets: AssetHandles)
    requires
        spawn_batch_ok(batch, ps, assets),
    ensures
        forall|i: int|
            0 <= i < batch.len() ==> position_in_spawn_range(#[trigger] batch[i].position),
{
    assert forall|i: int| 0 <= i < batch.len() implies position_in_spawn_range(
        batch[i].position,
    ) by {
        if i < ps.cube_count {
            assert(spawned_body(batch[i], BodyKind::Cube, assets, ps));
        } else {
            assert(spawned_body(batch[i], BodyKind::Ball, assets, ps));
        }
    }
}

/// A run of the tick loop: `ws[0]` is the state before the first tick and
/// each `ws[i + 1]` follows `ws[i]` by one tick on input `ins[i]`.
pub open spec fn tick_run(ws: Seq<World>, ins: Seq<TiltInput>) -> bool {
    &&& ws.len() == ins.len() + 1
    &&& forall|i: int| 0 <= i < ins.len() ==> #[trigger] tick_rel(ws[i], ws[i + 1], ins[i])
}

/// Ticking repeatedly while the lifecycle state is `Running` and no reset
/// is requested changes neither the parameter record nor the dynamic
/// bodies — in particular, the body count stays the same.
pub proof fn lemma_running_ticks_idempotent(ws: Seq<World>, ins: Seq<TiltInput>, n: int)
    requires
        tick_run(ws, ins),
        0 <= n < ws.len(),
        ws[0].params.lifecycle_state == LifecycleState::Running,
    ensures
        ws[n].params == ws[0].params,
        ws[n].bodies@ == ws[0].bodies@,
    decreases n,
{
    if n > 0 {
        lemma_running_ticks_idempotent(ws, ins, n - 1);
        assert(tick_rel(ws[n - 1], ws[(n - 1) + 1], ins[n - 1]));
        assert(tick_rel(ws[n - 1], ws[n], ins[n - 1]));
    }
}

/// Holding the forward tilt alone for `n` consecutive ticks composes
/// exactly `n` forward steps of 0.01 radian about the lateral axis onto
/// the platform's orientation, in that application order — whatever the
/// lifecycle state machine does meanwhile.
pub proof fn lemma_forward_tilt_accumulates(ws: Seq<World>, ins: Seq<TiltInput>, n: int)
    requires
        tick_run(ws, ins),
        0 <= n < ws.len(),
        forall|i: int|
            0 <= i < ins.len() ==> #[trigger] ins[i] == (TiltInput {
                forward_tilt: true,
                ..TiltInput::none_spec()
            }),
    ensures
        ws[n].platform.orientation@ == ws[0].platform.orientation@ + Seq::<TiltStep>::new(
            n as nat,
            |j: int| TiltStep::TiltForward,
        ),
    decreases n,
{
    if n > 0 {
        lemma_forward_tilt_accumulates(ws, ins, n - 1);
        assert(tick_rel(ws[n - 1], ws[(n - 1) + 1], ins[n - 1]));
        assert(tick_rel(ws[n - 1], ws[n], ins[n - 1]));
        assert(ws[n].platform.orientation@ == ws[n - 1].platform.orientation@ + tilt_steps_spec(
            ins[n - 1],
        ));
        assert(tilt_steps_spec(ins[n - 1]) =~= seq![TiltStep::TiltForward]);
        assert(ws[0].platform.orientation@ + Seq::<TiltStep>::new(
            (n - 1) as nat,
            |j: int| TiltStep::TiltForward,
        ) + seq![TiltStep::TiltForward] =~= ws[0].platform.orientation@ + Seq::<TiltStep>::new(
            n as nat,
            |j: int| TiltStep::TiltForward,
        ));
    } else {
        assert(ws[0].platform.orientation@ + Seq::<TiltStep>::new(
            0nat,
            |j: int| TiltStep::TiltForward,
        ) =~= ws[0].platform.orientation@);
    }
}

} // verus!
