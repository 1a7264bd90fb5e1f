//! Simulation lifecycle and parameter controller for a rigid-body sandbox.
//!
//! The controller governs when dynamic bodies are created and destroyed, how
//! user-tunable physical parameters are captured onto bodies at creation
//! time, and how continuous tilt input is folded into the platform's
//! orientation.  The physics solver, the renderer and the configuration
//! panel are external collaborators: they exchange plain values with this
//! library and are driven by the hosting application.

pub mod assets;
pub mod body;
pub mod lifecycle;
pub mod params;
pub mod platform;
pub mod random;
pub mod world;
