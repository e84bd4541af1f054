//! The home of collision tests between the cursor and rectangles.
use vstd::prelude::*;

verus! {

/// Collision tests between the cursor and rectangles.
pub struct Collide;

} // verus!
