//! The kinds of material.

use vstd::prelude::*;
use crate::scene::LambertReflectionMaterial;

verus! {

#[derive(Clone, Copy, Debug, PartialEq, Eq)]
pub enum Material {
    LambertReflection(LambertReflectionMaterial),
}

} // verus!
