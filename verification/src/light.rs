//! The kinds of light.

use vstd::prelude::*;

verus! {

#[derive(Clone, Copy, Debug, PartialEq, Eq)]
pub enum Light {
    Point,
    Directional,
    Environment,
}

} // verus!
