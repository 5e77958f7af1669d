//! The kinds of camera.

use vstd::prelude::*;
use crate::scene::PerspectiveCamera;

verus! {

#[derive(Clone, Copy, Debug, PartialEq, Eq)]
pub enum Camera {
    Perspective(PerspectiveCamera),
}

} // verus!
