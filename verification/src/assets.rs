//! The startup record of display handles, one mesh and material pair per
//! body kind.

use vstd::prelude::*;

use crate::body::BodyKind;

verus! {

/// Opaque display handles, resolved once at startup before the first tick
/// and read-only thereafter.
///
/// The controller treats a handle as a plain identifier: it only copies the
/// right pair onto each body it creates.  The hosting layer maps each
/// identifier back to its loaded mesh or material.
#[derive(Clone, Copy, Debug, PartialEq, Eq, Structural)]
pub struct AssetHandles {
    pub ball_mesh: u64,
    pub ball_material: u64,
    pub cube_mesh: u64,
    pub cube_material: u64,
}

impl AssetHandles {
    /// The mesh handle for a body of kind `kind`.
    pub open spec fn mesh_for_spec(self, kind: BodyKind) -> u64 {
        match kind {
            BodyKind::Ball => self.ball_mesh,
            BodyKind::Cube => self.cube_mesh,
        }
    }

    /// The material handle for a body of kind `kind`.
    pub open spec fn material_for_spec(self, kind: BodyKind) -> u64 {
        match kind {
            BodyKind::Ball => self.ball_material,
            BodyKind::Cube => self.cube_material,
        }
    }

    /// Look up the mesh handle for `kind`.
    pub fn mesh_for(&self, kind: BodyKind) -> (h: u64)
        ensures
            h == self.mesh_for_spec(kind),
    {
        match kind {
            BodyKind::Ball => self.ball_mesh,
            BodyKind::Cube => self.cube_mesh,
        }
    }

    /// Look up the material handle for `kind`.
    pub fn material_for(&self, kind: BodyKind) -> (h: u64)
        ensures
            h == self.material_for_spec(kind),
    {
        match kind {
            BodyKind::Ball => self.ball_material,
            BodyKind::Cube => self.cube_material,
        }
    }
}

} // verus!
