//! contains several functions that help with doing matrix arithmetic
use std::ops::Div;
use vstd::prelude::*;
use vstd::std_specs::ops::DivSpec;

use crate::vectors::Vec2;

verus! {

/// Helper function to normalize 2D points: divides each component of the point by
/// the same component of the size.
pub fn normalize_points<T: Div<Output = T>>(point: Vec2<T>, size: Vec2<T>) -> (v: Vec2<T>)
    requires
        point.x.div_req(size.x),
        point.y.div_req(size.y),
    ensures
        T::obeys_div_spec() ==> v == (Vec2 { x: point.x.div_spec(size.x), y: point.y.div_spec(size.y) }),
{
    let x = point.x / size.x;
    let y = point.y / size.y;
    Vec2 { x, y }
}

} // verus!
