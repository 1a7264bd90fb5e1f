use rigid_sandbox::assets::AssetHandles;
use rigid_sandbox::body::BodyKind;
use rigid_sandbox::body::count_kind_in;
use rigid_sandbox::lifecycle::object_cleanup;
use rigid_sandbox::lifecycle::object_spawner;
use rigid_sandbox::params::LifecycleState;
use rigid_sandbox::params::Params;
use rigid_sandbox::params::SCALAR_HALF_BITS;
use rigid_sandbox::params::SCALAR_ONE_BITS;
use rigid_sandbox::params::Scalar;
use rigid_sandbox::platform::Platform;
use rigid_sandbox::platform::TiltInput;
use rigid_sandbox::platform::TiltStep;
use rigid_sandbox::platform::tilt_steps;
use rigid_sandbox::random::COORD_STEPS;
use rigid_sandbox::random::random_offset;
use rigid_sandbox::random::random_spawn_position;
use rigid_sandbox::world::World;

fn test_assets() -> AssetHandles {
    AssetHandles { ball_mesh: 10, ball_material: 11, cube_mesh: 20, cube_material: 21 }
}

fn no_input() -> TiltInput {
    TiltInput::none()
}

fn forward_input() -> TiltInput {
    TiltInput { left_rotate: false, right_rotate: false, forward_tilt: true, backward_tilt: false }
}

#[test]
fn scalar_bits_round_trip() {
    let s = Scalar::from_bits(0.25f32.to_bits());
    assert_eq!(f32::from_bits(s.to_bits()), 0.25f32);
    assert_eq!(SCALAR_ONE_BITS, 1.0f32.to_bits());
    assert_eq!(SCALAR_HALF_BITS, 0.5f32.to_bits());
}

#[test]
fn startup_defaults() {
    let p = Params::new();
    assert_eq!(p.lifecycle_state, LifecycleState::Idle);
    assert_eq!(p.cube_count, 1);
    assert_eq!(p.ball_count, 1);
    assert_eq!(f32::from_bits(p.gravity_scale.bits), 1.0);
    assert_eq!(f32::from_bits(p.friction_scale.bits), 0.5);
    assert_eq!(f32::from_bits(p.restitution_scale.bits), 0.5);
    assert_eq!(f32::from_bits(p.density_scale.bits), 1.0);
}

#[test]
fn platform_starts_level_with_half_friction() {
    let p = Platform::new();
    assert_eq!(f32::from_bits(p.friction.bits), 0.5);
    assert!(p.orientation.is_empty());
}

#[test]
fn spawner_fires_only_from_idle() {
    let assets = test_assets();
    for state in [LifecycleState::Running, LifecycleState::ResetRequested] {
        let mut p = Params::new();
        p.lifecycle_state = state;
        let batch = object_spawner(&mut p, &assets);
        assert!(batch.is_empty());
        assert_eq!(p.lifecycle_state, state);
    }
    let mut p = Params::new();
    let batch = object_spawner(&mut p, &assets);
    assert_eq!(batch.len(), 2);
    assert_eq!(p.lifecycle_state, LifecycleState::Running);
}

#[test]
fn cleanup_fires_only_from_reset_requested() {
    for state in [LifecycleState::Idle, LifecycleState::Running] {
        let mut p = Params::new();
        p.lifecycle_state = state;
        assert_eq!(object_cleanup(&mut p), None);
        assert_eq!(p.lifecycle_state, state);
    }
    let mut p = Params::new();
    p.friction_scale = Scalar::from_bits(0.75f32.to_bits());
    p.lifecycle_state = LifecycleState::ResetRequested;
    let r = object_cleanup(&mut p);
    assert_eq!(r, Some(Scalar::from_bits(0.75f32.to_bits())));
    assert_eq!(p.lifecycle_state, LifecycleState::Idle);
}

#[test]
fn at_most_one_action_per_tick() {
    // From Idle a tick spawns and ends Running: the cleanup cannot also
    // have fired, or the fresh bodies would be gone.
    let mut w = World::new(test_assets());
    w.tick(no_input());
    assert_eq!(w.params.lifecycle_state, LifecycleState::Running);
    assert_eq!(w.bodies.len(), 2);
    // From Running a tick does nothing.
    w.tick(no_input());
    assert_eq!(w.params.lifecycle_state, LifecycleState::Running);
    assert_eq!(w.bodies.len(), 2);
    // From ResetRequested a tick only cleans up: it does not also spawn.
    w.request_reset();
    w.tick(no_input());
    assert_eq!(w.params.lifecycle_state, LifecycleState::Idle);
    assert_eq!(w.bodies.len(), 0);
}

#[test]
fn spawn_creates_exact_counts() {
    let mut w = World::new(test_assets());
    w.params.cube_count = 2;
    w.params.ball_count = 3;
    w.tick(no_input());
    assert_eq!(w.params.lifecycle_state, LifecycleState::Running);
    assert_eq!(w.bodies.len(), 5);
    assert_eq!(count_kind_in(&w.bodies, BodyKind::Cube), 2);
    assert_eq!(count_kind_in(&w.bodies, BodyKind::Ball), 3);
    // Cubes are fully created before balls begin.
    for i in 0..2 {
        assert_eq!(w.bodies[i].kind, BodyKind::Cube);
        assert_eq!(w.bodies[i].mesh, 20);
        assert_eq!(w.bodies[i].material, 21);
    }
    for i in 2..5 {
        assert_eq!(w.bodies[i].kind, BodyKind::Ball);
        assert_eq!(w.bodies[i].mesh, 10);
        assert_eq!(w.bodies[i].material, 11);
    }
}

#[test]
fn spawn_with_zero_counts_still_transitions() {
    let mut w = World::new(test_assets());
    w.params.cube_count = 0;
    w.params.ball_count = 0;
    w.tick(no_input());
    assert_eq!(w.bodies.len(), 0);
    assert_eq!(w.params.lifecycle_state, LifecycleState::Running);
}

#[test]
fn reset_destroys_everything_and_applies_current_friction() {
    let mut w = World::new(test_assets());
    w.params.cube_count = 4;
    w.params.ball_count = 4;
    w.tick(no_input());
    assert_eq!(w.bodies.len(), 8);
    // The friction scale edited while Running reaches the platform only
    // when the cleanup runs.
    w.params.friction_scale = Scalar::from_bits(0.7f32.to_bits());
    assert_eq!(f32::from_bits(w.platform.friction.bits), 0.5);
    w.request_reset();
    w.tick(no_input());
    assert_eq!(w.bodies.len(), 0);
    assert_eq!(w.params.lifecycle_state, LifecycleState::Idle);
    assert_eq!(f32::from_bits(w.platform.friction.bits), 0.7);
    // A later edit has no effect until the next reset completes.
    w.params.friction_scale = Scalar::from_bits(0.9f32.to_bits());
    assert_eq!(f32::from_bits(w.platform.friction.bits), 0.7);
}

#[test]
fn running_ticks_change_no_bodies() {
    let mut w = World::new(test_assets());
    w.params.cube_count = 3;
    w.params.ball_count = 2;
    w.tick(no_input());
    let snapshot = w.bodies.clone();
    for _ in 0..10 {
        w.tick(no_input());
        assert_eq!(w.params.lifecycle_state, LifecycleState::Running);
        assert_eq!(w.bodies, snapshot);
    }
}

#[test]
fn spawn_positions_lie_in_the_randomization_volume() {
    let mut w = World::new(test_assets());
    w.params.cube_count = 200;
    w.params.ball_count = 200;
    w.tick(no_input());
    assert_eq!(w.bodies.len(), 400);
    for b in w.bodies.iter() {
        assert!(-5000 <= b.position.x && b.position.x <= 5000);
        assert!(2000 <= b.position.y && b.position.y <= 12000);
        assert!(-5000 <= b.position.z && b.position.z <= 5000);
        let x = b.position.x as f32 / 100.0;
        let y = b.position.y as f32 / 100.0;
        let z = b.position.z as f32 / 100.0;
        assert!((-50.0..=50.0).contains(&x));
        assert!((20.0..=120.0).contains(&y));
        assert!((-50.0..=50.0).contains(&z));
    }
}

#[test]
fn random_draws_stay_on_the_grid_and_vary() {
    let mut seen_distinct = false;
    let first = random_offset();
    for _ in 0..1000 {
        let r = random_offset();
        assert!(r <= COORD_STEPS);
        if r != first {
            seen_distinct = true;
        }
    }
    assert!(seen_distinct);
    let p = random_spawn_position();
    assert!(-5000 <= p.x && p.x <= 5000);
    assert!(2000 <= p.y && p.y <= 12000);
    assert!(-5000 <= p.z && p.z <= 5000);
}

#[test]
fn tilt_steps_keep_the_fixed_order() {
    let all = TiltInput {
        left_rotate: true,
        right_rotate: true,
        forward_tilt: true,
        backward_tilt: true,
    };
    assert_eq!(
        tilt_steps(all),
        vec![
            TiltStep::RollLeft,
            TiltStep::RollRight,
            TiltStep::TiltForward,
            TiltStep::TiltBackward,
        ],
    );
    assert_eq!(tilt_steps(no_input()), vec![]);
    assert_eq!(tilt_steps(forward_input()), vec![TiltStep::TiltForward]);
}

#[test]
fn held_forward_tilt_accumulates_in_order() {
    let mut w = World::new(test_assets());
    for _ in 0..5 {
        w.tick(forward_input());
    }
    assert_eq!(w.platform.orientation, vec![TiltStep::TiltForward; 5]);
    // The controller is independent of the lifecycle machine: a reset tick
    // composes its step too.
    w.request_reset();
    w.tick(forward_input());
    assert_eq!(w.platform.orientation, vec![TiltStep::TiltForward; 6]);
}

#[test]
fn scenario_three_cubes_then_reset() {
    let mut w = World::new(test_assets());
    w.params.cube_count = 3;
    w.params.ball_count = 0;
    w.params.restitution_scale = Scalar::from_bits(0.5f32.to_bits());
    w.params.density_scale = Scalar::from_bits(1.0f32.to_bits());
    assert_eq!(w.params.lifecycle_state, LifecycleState::Idle);
    w.tick(no_input());
    assert_eq!(w.bodies.len(), 3);
    for b in w.bodies.iter() {
        assert_eq!(b.kind, BodyKind::Cube);
        assert_eq!(f32::from_bits(b.restitution.bits), 0.5);
        assert_eq!(f32::from_bits(b.density.bits), 1.0);
    }
    assert_eq!(w.params.lifecycle_state, LifecycleState::Running);
    w.request_reset();
    w.tick(no_input());
    assert_eq!(w.bodies.len(), 0);
    assert_eq!(w.params.lifecycle_state, LifecycleState::Idle);
    assert_eq!(w.platform.friction, w.params.friction_scale);
}

#[test]
fn captured_scales_are_not_live_linked() {
    let mut w = World::new(test_assets());
    w.params.restitution_scale = Scalar::from_bits(0.3f32.to_bits());
    w.params.density_scale = Scalar::from_bits(2.0f32.to_bits());
    w.tick(no_input());
    // Edits after the spawn do not reach existing bodies.
    w.params.restitution_scale = Scalar::from_bits(0.9f32.to_bits());
    w.params.density_scale = Scalar::from_bits(9.0f32.to_bits());
    w.tick(no_input());
    for b in w.bodies.iter() {
        assert_eq!(f32::from_bits(b.restitution.bits), 0.3);
        assert_eq!(f32::from_bits(b.density.bits), 2.0);
    }
}

#[test]
fn reset_while_idle_is_tolerated() {
    let mut w = World::new(test_assets());
    w.params.friction_scale = Scalar::from_bits(0.6f32.to_bits());
    w.request_reset();
    w.tick(no_input());
    assert_eq!(w.bodies.len(), 0);
    assert_eq!(w.params.lifecycle_state, LifecycleState::Idle);
    assert_eq!(f32::from_bits(w.platform.friction.bits), 0.6);
}
