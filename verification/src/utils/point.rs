//! A point with integer coordinates.
use vstd::prelude::*;

verus! {

/// A point, or a size, in whole pixels.
#[derive(Debug, PartialEq, Eq, Structural, Clone, Copy)]
pub struct Point {
    pub x: i32,
    pub y: i32,
}

} // verus!
