//! What a scene object is made of and what shape it has.

use vstd::prelude::*;
use crate::scene::{Material, MeshedObject};

verus! {

/// The material of a scene object: defined in place.
#[derive(Clone, Debug, PartialEq, Eq)]
pub enum ObjectMaterial {
    Material(Material),
}

/// The shape of a scene object.
#[derive(Clone, Debug, PartialEq, Eq)]
pub enum Mesh {
    Sphere,
    Cube,
    Plane,
    Disk,
    MeshedObject(MeshedObject),
}

} // verus!
