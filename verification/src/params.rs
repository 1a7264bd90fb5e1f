//! The shared parameter record and the lifecycle state flag.

use vstd::prelude::*;

verus! {

/// Bit pattern of the single-precision value 1.0, the startup default for
/// the gravity and density scales.
pub const SCALAR_ONE_BITS: u32 = 0x3F80_0000;

/// Bit pattern of the single-precision value 0.5, the startup default for
/// the friction and restitution scales and the platform's initial friction.
pub const SCALAR_HALF_BITS: u32 = 0x3F00_0000;

/// A user-tunable physical scalar, carried as the bit pattern of an IEEE 754
/// single-precision value.
///
/// The controller never computes on these scalars: it only copies them, from
/// the parameter record onto newly created bodies (restitution, density) or
/// onto the platform (friction).  Carrying the raw bits keeps every copy
/// exact; the hosting layer converts to and from its floating-point values
/// at the boundary.
#[derive(Clone, Copy, Debug, PartialEq, Eq, Structural)]
pub struct Scalar {
    pub bits: u32,
}

impl Scalar {
    /// Wrap a single-precision bit pattern.
    pub fn from_bits(bits: u32) -> (s: Scalar)
        ensures
            s.bits == bits,
    {
        Scalar { bits }
    }

    /// The wrapped bit pattern.
    pub fn to_bits(self) -> (bits: u32)
        ensures
            bits == self.bits,
    {
        self.bits
    }
}

/// The three-valued lifecycle flag that alone decides which of the spawn
/// and cleanup actions fires on a tick.
#[derive(Clone, Copy, Debug, PartialEq, Eq, Structural)]
pub enum LifecycleState {
    /// No dynamic bodies exist; the spawner fires on the next tick.
    Idle,
    /// Bodies exist and are simulated; neither action fires.
    Running,
    /// The panel's reset trigger was pressed; the cleanup fires on the next
    /// tick.
    ResetRequested,
}

/// The user-tunable parameter record, mutated by the configuration panel
/// and read by the spawner and the cleanup.
///
/// No bounds are enforced here: the editing surface keeps counts and scales
/// sane, and the controller tolerates any value.
#[derive(Clone, Copy, Debug, PartialEq, Eq, Structural)]
pub struct Params {
    pub lifecycle_state: LifecycleState,
    pub cube_count: usize,
    pub ball_count: usize,
    pub gravity_scale: Scalar,
    pub friction_scale: Scalar,
    pub restitution_scale: Scalar,
    pub density_scale: Scalar,
}

impl Params {
    /// The record as configured at startup: one body of each kind, gravity
    /// and density scales at 1.0, friction and restitution scales at 0.5,
    /// lifecycle state `Idle`.
    pub open spec fn init() -> Params {
        Params {
            lifecycle_state: LifecycleState::Idle,
            cube_count: 1,
            ball_count: 1,
            gravity_scale: Scalar { bits: SCALAR_ONE_BITS },
            friction_scale: Scalar { bits: SCALAR_HALF_BITS },
            restitution_scale: Scalar { bits: SCALAR_HALF_BITS },
            density_scale: Scalar { bits: SCALAR_ONE_BITS },
        }
    }

    /// Build the startup record.
    pub fn new() -> (p: Params)
        ensures
            p == Params::init(),
    {
        Params {
            lifecycle_state: LifecycleState::Idle,
            cube_count: 1,
            ball_count: 1,
            gravity_scale: Scalar { bits: SCALAR_ONE_BITS },
            friction_scale: Scalar { bits: SCALAR_HALF_BITS },
            restitution_scale: Scalar { bits: SCALAR_HALF_BITS },
            density_scale: Scalar { bits: SCALAR_ONE_BITS },
        }
    }

    /// The panel's reset trigger: an edge-triggered write of the lifecycle
    /// flag.  Every other field is left as it is.
    pub fn request_reset(&mut self)
        ensures
            *final(self) == (Params {
                lifecycle_state: LifecycleState::ResetRequested,
                ..*old(self)
            }),
    {
        self.lifecycle_state = LifecycleState::ResetRequested;
    }
}

} // verus!
