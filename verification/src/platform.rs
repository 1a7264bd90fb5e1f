//! The platform and its continuous tilt controller.

use vstd::prelude::*;

use crate::params::SCALAR_HALF_BITS;
use crate::params::Scalar;

verus! {

/// The instantaneous held-down status of the four tilt inputs, polled once
/// per tick.
#[derive(Clone, Copy, Debug, PartialEq, Eq, Structural)]
pub struct TiltInput {
    /// Rotate left about the forward axis.
    pub left_rotate: bool,
    /// Rotate right about the forward axis.
    pub right_rotate: bool,
    /// Tilt forward about the lateral axis.
    pub forward_tilt: bool,
    /// Tilt backward about the lateral axis.
    pub backward_tilt: bool,
}

impl TiltInput {
    /// No input held.
    pub open spec fn none_spec() -> TiltInput {
        TiltInput { left_rotate: false, right_rotate: false, forward_tilt: false, backward_tilt: false }
    }

    /// Build the no-input state.
    pub fn none() -> (inp: TiltInput)
        ensures
            inp == TiltInput::none_spec(),
    {
        TiltInput { left_rotate: false, right_rotate: false, forward_tilt: false, backward_tilt: false }
    }
}

/// One elementary rotation of 0.01 radian, composed into the platform's
/// orientation.  Rotation composition is not commutative, so the
/// application order of these steps is part of the contract.
#[derive(Clone, Copy, Debug, PartialEq, Eq, Structural)]
pub enum TiltStep {
    /// +0.01 radian about the forward axis.
    RollLeft,
    /// -0.01 radian about the forward axis.
    RollRight,
    /// +0.01 radian about the lateral axis.
    TiltForward,
    /// -0.01 radian about the lateral axis.
    TiltBackward,
}

/// The steps one tick composes into the orientation, in the fixed
/// application order: roll left, roll right, tilt forward, tilt backward —
/// one step per held input, in that order.
pub open spec fn tilt_steps_spec(input: TiltInput) -> Seq<TiltStep> {
    (if input.left_rotate {
        seq![TiltStep::RollLeft]
    } else {
        Seq::<TiltStep>::empty()
    }) + (if input.right_rotate {
        seq![TiltStep::RollRight]
    } else {
        Seq::<TiltStep>::empty()
    }) + (if input.forward_tilt {
        seq![TiltStep::TiltForward]
    } else {
        Seq::<TiltStep>::empty()
    }) + (if input.backward_tilt {
        seq![TiltStep::TiltBackward]
    } else {
        Seq::<TiltStep>::empty()
    })
}

/// Compute one tick's steps.
pub fn tilt_steps(input: TiltInput) -> (steps: Vec<TiltStep>)
    ensures
        steps@ == tilt_steps_spec(input),
{
    let mut steps: Vec<TiltStep> = Vec::new();
    if input.left_rotate {
        steps.push(TiltStep::RollLeft);
    }
    if input.right_rotate {
        steps.push(TiltStep::RollRight);
    }
    if input.forward_tilt {
        steps.push(TiltStep::TiltForward);
    }
    if input.backward_tilt {
        steps.push(TiltStep::TiltBackward);
    }
    proof {
        assert(steps@ =~= tilt_steps_spec(input));
    }
    steps
}

/// The single platform: a kinematically driven slab.
///
/// Its friction is written only when a reset completes; its orientation is
/// the ordered composition of every elementary tilt step applied since
/// startup.  The record keeps that composition as the sequence of steps —
/// the exact rotation is the fold of the sequence, which the hosting layer
/// maintains as it applies each step to the engine's quaternion.
#[derive(Clone, Debug, PartialEq, Eq)]
pub struct Platform {
    pub friction: Scalar,
    pub orientation: Vec<TiltStep>,
}

impl Platform {
    /// The platform as created at startup: level, with friction 0.5.
    pub fn new() -> (p: Platform)
        ensures
            p.friction == (Scalar { bits: SCALAR_HALF_BITS }),
            p.orientation@ == Seq::<TiltStep>::empty(),
    {
        Platform { friction: Scalar { bits: SCALAR_HALF_BITS }, orientation: Vec::new() }
    }

    /// Set the friction coefficient; only a completing reset calls this.
    pub fn set_friction(&mut self, f: Scalar)
        ensures
            final(self).friction == f,
            final(self).orientation@ == old(self).orientation@,
    {
        self.friction = f;
    }

    /// One tick of the tilt controller: compose this tick's steps, in their
    /// fixed order, onto the current orientation.  The controller runs
    /// independently of the lifecycle state, and no cap is put on the
    /// accumulated tilt.
    pub fn platform_movement(&mut self, input: TiltInput)
        ensures
            final(self).friction == old(self).friction,
            final(self).orientation@ == old(self).orientation@ + tilt_steps_spec(input),
    {
        let mut steps = tilt_steps(input);
        self.orientation.append(&mut steps);
    }
}

} // verus!
