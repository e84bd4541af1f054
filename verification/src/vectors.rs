//! Generic implmentation of 2D Vectors
use std::ops::{Add, Div, Mul, Sub};
use vstd::prelude::*;
use vstd::std_specs::ops::{AddSpec, DivSpec, MulSpec, SubSpec};

verus! {

/// A generic representation of 2D data
#[derive(Clone, Copy, Debug, PartialEq, Eq, Hash)]
pub struct Vec2<T> {
    pub x: T,
    pub y: T,
}

impl<T> Vec2<T> {
    /// Builds a vector from its two components.
    pub fn new(x: T, y: T) -> (v: Self)
        ensures
            v.x == x,
            v.y == y,
    {
        Self { x, y }
    }

    /// The two components as an array, `x` first.
    pub fn to_raw(self) -> (raw: [T; 2])
        ensures
            raw@ == seq![self.x, self.y],
    {
        let raw = [self.x, self.y];
        assert(raw@ =~= seq![self.x, self.y]);
        raw
    }
}

impl<T: Mul<Output = T> + Copy> Vec2<T> {
    /// Multiplies both components by the number.
    pub fn scale(self, number: T) -> (v: Vec2<T>)
        requires
            self.x.mul_req(number),
            self.y.mul_req(number),
        ensures
            T::obeys_mul_spec() ==> v == (Vec2 { x: self.x.mul_spec(number), y: self.y.mul_spec(number) }),
    {
        Vec2 { x: self.x * number, y: self.y * number }
    }
}

impl<T> From<Vec2<T>> for (T, T) {
    /// The two components as a pair, `x` first.
    fn from(value: Vec2<T>) -> (pair: (T, T)) {
        (value.x, value.y)
    }
}

impl<T> vstd::std_specs::convert::FromSpecImpl<Vec2<T>> for (T, T) {
    open spec fn obeys_from_spec() -> bool {
        true
    }

    open spec fn from_spec(value: Vec2<T>) -> (T, T) {
        (value.x, value.y)
    }
}

impl<T> From<(T, T)> for Vec2<T> {
    /// The vector with the pair's first item as `x` and its second as `y`.
    fn from(value: (T, T)) -> (v: Vec2<T>) {
        Vec2 { x: value.0, y: value.1 }
    }
}

impl<T> vstd::std_specs::convert::FromSpecImpl<(T, T)> for Vec2<T> {
    open spec fn obeys_from_spec() -> bool {
        true
    }

    open spec fn from_spec(value: (T, T)) -> Vec2<T> {
        Vec2 { x: value.0, y: value.1 }
    }
}

impl<T: Add<Output = T>> Add for Vec2<T> {
    type Output = Vec2<T>;

    /// Applies the operation to the `x` components and to the `y` components.
    fn add(self, rhs: Self) -> (v: Self::Output) {
        Vec2 { x: self.x + rhs.x, y: self.y + rhs.y }
    }
}

impl<T: Add<Output = T>> vstd::std_specs::ops::AddSpecImpl for Vec2<T> {
    open spec fn obeys_add_spec() -> bool {
        T::obeys_add_spec()
    }

    open spec fn add_req(self, rhs: Self) -> bool {
        self.x.add_req(rhs.x) && self.y.add_req(rhs.y)
    }

    open spec fn add_spec(self, rhs: Self) -> Self::Output {
        Vec2 { x: self.x.add_spec(rhs.x), y: self.y.add_spec(rhs.y) }
    }
}

impl<T: Sub<Output = T>> Sub for Vec2<T> {
    type Output = Vec2<T>;

    /// Applies the operation to the `x` components and to the `y` components.
    fn sub(self, rhs: Self) -> (v: Self::Output) {
        Vec2 { x: self.x - rhs.x, y: self.y - rhs.y }
    }
}

impl<T: Sub<Output = T>> vstd::std_specs::ops::SubSpecImpl for Vec2<T> {
    open spec fn obeys_sub_spec() -> bool {
        T::obeys_sub_spec()
    }

    open spec fn sub_req(self, rhs: Self) -> bool {
        self.x.sub_req(rhs.x) && self.y.sub_req(rhs.y)
    }

    open spec fn sub_spec(self, rhs: Self) -> Self::Output {
        Vec2 { x: self.x.sub_spec(rhs.x), y: self.y.sub_spec(rhs.y) }
    }
}

impl<T: Mul<Output = T>> Mul for Vec2<T> {
    type Output = Vec2<T>;

    /// Applies the operation to the `x` components and to the `y` components.
    fn mul(self, rhs: Self) -> (v: Self::Output) {
        Vec2 { x: self.x * rhs.x, y: self.y * rhs.y }
    }
}

impl<T: Mul<Output = T>> vstd::std_specs::ops::MulSpecImpl for Vec2<T> {
    open spec fn obeys_mul_spec() -> bool {
        T::obeys_mul_spec()
    }

    open spec fn mul_req(self, rhs: Self) -> bool {
        self.x.mul_req(rhs.x) && self.y.mul_req(rhs.y)
    }

    open spec fn mul_spec(self, rhs: Self) -> Self::Output {
        Vec2 { x: self.x.mul_spec(rhs.x), y: self.y.mul_spec(rhs.y) }
    }
}

impl<T: Div<Output = T>> Div for Vec2<T> {
    type Output = Vec2<T>;

    /// Applies the operation to the `x` components and to the `y` components.
    fn div(self, rhs: Self) -> (v: Self::Output) {
        Vec2 { x: self.x / rhs.x, y: self.y / rhs.y }
    }
}

impl<T: Div<Output = T>> vstd::std_specs::ops::DivSpecImpl for Vec2<T> {
    open spec fn obeys_div_spec() -> bool {
        T::obeys_div_spec()
    }

    open spec fn div_req(self, rhs: Self) -> bool {
        self.x.div_req(rhs.x) && self.y.div_req(rhs.y)
    }

    open spec fn div_spec(self, rhs: Self) -> Self::Output {
        Vec2 { x: self.x.div_spec(rhs.x), y: self.y.div_spec(rhs.y) }
    }
}

impl From<Vec2<i8>> for Vec2<i128> {
    /// Widens both components.
    fn from(value: Vec2<i8>) -> (v: Self) {
        Vec2 { x: value.x as i128, y: value.y as i128 }
    }
}

impl vstd::std_specs::convert::FromSpecImpl<Vec2<i8>> for Vec2<i128> {
    open spec fn obeys_from_spec() -> bool {
        true
    }

    open spec fn from_spec(value: Vec2<i8>) -> Vec2<i128> {
        Vec2 { x: value.x as i128, y: value.y as i128 }
    }
}

impl From<Vec2<i16>> for Vec2<i128> {
    /// Widens both components.
    fn from(value: Vec2<i16>) -> (v: Self) {
        Vec2 { x: value.x as i128, y: value.y as i128 }
    }
}

impl vstd::std_specs::convert::FromSpecImpl<Vec2<i16>> for Vec2<i128> {
    open spec fn obeys_from_spec() -> bool {
        true
    }

    open spec fn from_spec(value: Vec2<i16>) -> Vec2<i128> {
        Vec2 { x: value.x as i128, y: value.y as i128 }
    }
}

impl From<Vec2<i32>> for Vec2<i128> {
    /// Widens both components.
    fn from(value: Vec2<i32>) -> (v: Self) {
        Vec2 { x: value.x as i128, y: value.y as i128 }
    }
}

impl vstd::std_specs::convert::FromSpecImpl<Vec2<i32>> for Vec2<i128> {
    open spec fn obeys_from_spec() -> bool {
        true
    }

    open spec fn from_spec(value: Vec2<i32>) -> Vec2<i128> {
        Vec2 { x: value.x as i128, y: value.y as i128 }
    }
}

impl From<Vec2<i64>> for Vec2<i128> {
    /// Widens both components.
    fn from(value: Vec2<i64>) -> (v: Self) {
        Vec2 { x: value.x as i128, y: value.y as i128 }
    }
}

impl vstd::std_specs::convert::FromSpecImpl<Vec2<i64>> for Vec2<i128> {
    open spec fn obeys_from_spec() -> bool {
        true
    }

    open spec fn from_spec(value: Vec2<i64>) -> Vec2<i128> {
        Vec2 { x: value.x as i128, y: value.y as i128 }
    }
}

impl From<Vec2<u8>> for Vec2<i128> {
    /// Widens both components.
    fn from(value: Vec2<u8>) -> (v: Self) {
        Vec2 { x: value.x as i128, y: value.y as i128 }
    }
}

impl vstd::std_specs::convert::FromSpecImpl<Vec2<u8>> for Vec2<i128> {
    open spec fn obeys_from_spec() -> bool {
        true
    }

    open spec fn from_spec(value: Vec2<u8>) -> Vec2<i128> {
        Vec2 { x: value.x as i128, y: value.y as i128 }
    }
}

impl From<Vec2<u16>> for Vec2<i128> {
    /// Widens both components.
    fn from(value: Vec2<u16>) -> (v: Self) {
        Vec2 { x: value.x as i128, y: value.y as i128 }
    }
}

impl vstd::std_specs::convert::FromSpecImpl<Vec2<u16>> for Vec2<i128> {
    open spec fn obeys_from_spec() -> bool {
        true
    }

    open spec fn from_spec(value: Vec2<u16>) -> Vec2<i128> {
        Vec2 { x: value.x as i128, y: value.y as i128 }
    }
}

impl From<Vec2<u32>> for Vec2<i128> {
    /// Widens both components.
    fn from(value: Vec2<u32>) -> (v: Self) {
        Vec2 { x: value.x as i128, y: value.y as i128 }
    }
}

impl vstd::std_specs::convert::FromSpecImpl<Vec2<u32>> for Vec2<i128> {
    open spec fn obeys_from_spec() -> bool {
        true
    }

    open spec fn from_spec(value: Vec2<u32>) -> Vec2<i128> {
        Vec2 { x: value.x as i128, y: value.y as i128 }
    }
}

impl From<Vec2<u64>> for Vec2<i128> {
    /// Widens both components.
    fn from(value: Vec2<u64>) -> (v: Self) {
        Vec2 { x: value.x as i128, y: value.y as i128 }
    }
}

impl vstd::std_specs::convert::FromSpecImpl<Vec2<u64>> for Vec2<i128> {
    open spec fn obeys_from_spec() -> bool {
        true
    }

    open spec fn from_spec(value: Vec2<u64>) -> Vec2<i128> {
        Vec2 { x: value.x as i128, y: value.y as i128 }
    }
}

impl From<Vec2<i8>> for Vec2<i64> {
    /// Widens both components.
    fn from(value: Vec2<i8>) -> (v: Self) {
        Vec2 { x: value.x as i64, y: value.y as i64 }
    }
}

impl vstd::std_specs::convert::FromSpecImpl<Vec2<i8>> for Vec2<i64> {
    open spec fn obeys_from_spec() -> bool {
        true
    }

    open spec fn from_spec(value: Vec2<i8>) -> Vec2<i64> {
        Vec2 { x: value.x as i64, y: value.y as i64 }
    }
}

impl From<Vec2<i16>> for Vec2<i64> {
    /// Widens both components.
    fn from(value: Vec2<i16>) -> (v: Self) {
        Vec2 { x: value.x as i64, y: value.y as i64 }
    }
}

impl vstd::std_specs::convert::FromSpecImpl<Vec2<i16>> for Vec2<i64> {
    open spec fn obeys_from_spec() -> bool {
        true
    }

    open spec fn from_spec(value: Vec2<i16>) -> Vec2<i64> {
        Vec2 { x: value.x as i64, y: value.y as i64 }
    }
}

impl From<Vec2<i32>> for Vec2<i64> {
    /// Widens both components.
    fn from(value: Vec2<i32>) -> (v: Self) {
        Vec2 { x: value.x as i64, y: value.y as i64 }
    }
}

impl vstd::std_specs::convert::FromSpecImpl<Vec2<i32>> for Vec2<i64> {
    open spec fn obeys_from_spec() -> bool {
        true
    }

    open spec fn from_spec(value: Vec2<i32>) -> Vec2<i64> {
        Vec2 { x: value.x as i64, y: value.y as i64 }
    }
}

impl From<Vec2<u8>> for Vec2<i64> {
    /// Widens both components.
    fn from(value: Vec2<u8>) -> (v: Self) {
        Vec2 { x: value.x as i64, y: value.y as i64 }
    }
}

impl vstd::std_specs::convert::FromSpecImpl<Vec2<u8>> for Vec2<i64> {
    open spec fn obeys_from_spec() -> bool {
        true
    }

    open spec fn from_spec(value: Vec2<u8>) -> Vec2<i64> {
        Vec2 { x: value.x as i64, y: value.y as i64 }
    }
}

impl From<Vec2<u16>> for Vec2<i64> {
    /// Widens both components.
    fn from(value: Vec2<u16>) -> (v: Self) {
        Vec2 { x: value.x as i64, y: value.y as i64 }
    }
}

impl vstd::std_specs::convert::FromSpecImpl<Vec2<u16>> for Vec2<i64> {
    open spec fn obeys_from_spec() -> bool {
        true
    }

    open spec fn from_spec(value: Vec2<u16>) -> Vec2<i64> {
        Vec2 { x: value.x as i64, y: value.y as i64 }
    }
}

impl From<Vec2<u32>> for Vec2<i64> {
    /// Widens both components.
    fn from(value: Vec2<u32>) -> (v: Self) {
        Vec2 { x: value.x as i64, y: value.y as i64 }
    }
}

impl vstd::std_specs::convert::FromSpecImpl<Vec2<u32>> for Vec2<i64> {
    open spec fn obeys_from_spec() -> bool {
        true
    }

    open spec fn from_spec(value: Vec2<u32>) -> Vec2<i64> {
        Vec2 { x: value.x as i64, y: value.y as i64 }
    }
}

impl From<Vec2<i8>> for Vec2<i32> {
    /// Widens both components.
    fn from(value: Vec2<i8>) -> (v: Self) {
        Vec2 { x: value.x as i32, y: value.y as i32 }
    }
}

impl vstd::std_specs::convert::FromSpecImpl<Vec2<i8>> for Vec2<i32> {
    open spec fn obeys_from_spec() -> bool {
        true
    }

    open spec fn from_spec(value: Vec2<i8>) -> Vec2<i32> {
        Vec2 { x: value.x as i32, y: value.y as i32 }
    }
}

impl From<Vec2<i16>> for Vec2<i32> {
    /// Widens both components.
    fn from(value: Vec2<i16>) -> (v: Self) {
        Vec2 { x: value.x as i32, y: value.y as i32 }
    }
}

impl vstd::std_specs::convert::FromSpecImpl<Vec2<i16>> for Vec2<i32> {
    open spec fn obeys_from_spec() -> bool {
        true
    }

    open spec fn from_spec(value: Vec2<i16>) -> Vec2<i32> {
        Vec2 { x: value.x as i32, y: value.y as i32 }
    }
}

impl From<Vec2<u8>> for Vec2<i32> {
    /// Widens both components.
    fn from(value: Vec2<u8>) -> (v: Self) {
        Vec2 { x: value.x as i32, y: value.y as i32 }
    }
}

impl vstd::std_specs::convert::FromSpecImpl<Vec2<u8>> for Vec2<i32> {
    open spec fn obeys_from_spec() -> bool {
        true
    }

    open spec fn from_spec(value: Vec2<u8>) -> Vec2<i32> {
        Vec2 { x: value.x as i32, y: value.y as i32 }
    }
}

impl From<Vec2<u16>> for Vec2<i32> {
    /// Widens both components.
    fn from(value: Vec2<u16>) -> (v: Self) {
        Vec2 { x: value.x as i32, y: value.y as i32 }
    }
}

impl vstd::std_specs::convert::FromSpecImpl<Vec2<u16>> for Vec2<i32> {
    open spec fn obeys_from_spec() -> bool {
        true
    }

    open spec fn from_spec(value: Vec2<u16>) -> Vec2<i32> {
        Vec2 { x: value.x as i32, y: value.y as i32 }
    }
}

impl From<Vec2<i8>> for Vec2<i16> {
    /// Widens both components.
    fn from(value: Vec2<i8>) -> (v: Self) {
        Vec2 { x: value.x as i16, y: value.y as i16 }
    }
}

impl vstd::std_specs::convert::FromSpecImpl<Vec2<i8>> for Vec2<i16> {
    open spec fn obeys_from_spec() -> bool {
        true
    }

    open spec fn from_spec(value: Vec2<i8>) -> Vec2<i16> {
        Vec2 { x: value.x as i16, y: value.y as i16 }
    }
}

impl From<Vec2<u8>> for Vec2<i16> {
    /// Widens both components.
    fn from(value: Vec2<u8>) -> (v: Self) {
        Vec2 { x: value.x as i16, y: value.y as i16 }
    }
}

impl vstd::std_specs::convert::FromSpecImpl<Vec2<u8>> for Vec2<i16> {
    open spec fn obeys_from_spec() -> bool {
        true
    }

    open spec fn from_spec(value: Vec2<u8>) -> Vec2<i16> {
        Vec2 { x: value.x as i16, y: value.y as i16 }
    }
}

impl From<Vec2<u8>> for Vec2<u128> {
    /// Widens both components.
    fn from(value: Vec2<u8>) -> (v: Self) {
        Vec2 { x: value.x as u128, y: value.y as u128 }
    }
}

impl vstd::std_specs::convert::FromSpecImpl<Vec2<u8>> for Vec2<u128> {
    open spec fn obeys_from_spec() -> bool {
        true
    }

    open spec fn from_spec(value: Vec2<u8>) -> Vec2<u128> {
        Vec2 { x: value.x as u128, y: value.y as u128 }
    }
}

impl From<Vec2<u16>> for Vec2<u128> {
    /// Widens both components.
    fn from(value: Vec2<u16>) -> (v: Self) {
        Vec2 { x: value.x as u128, y: value.y as u128 }
    }
}

impl vstd::std_specs::convert::FromSpecImpl<Vec2<u16>> for Vec2<u128> {
    open spec fn obeys_from_spec() -> bool {
        true
    }

    open spec fn from_spec(value: Vec2<u16>) -> Vec2<u128> {
        Vec2 { x: value.x as u128, y: value.y as u128 }
    }
}

impl From<Vec2<u32>> for Vec2<u128> {
    /// Widens both components.
    fn from(value: Vec2<u32>) -> (v: Self) {
        Vec2 { x: value.x as u128, y: value.y as u128 }
    }
}

impl vstd::std_specs::convert::FromSpecImpl<Vec2<u32>> for Vec2<u128> {
    open spec fn obeys_from_spec() -> bool {
        true
    }

    open spec fn from_spec(value: Vec2<u32>) -> Vec2<u128> {
        Vec2 { x: value.x as u128, y: value.y as u128 }
    }
}

impl From<Vec2<u64>> for Vec2<u128> {
    /// Widens both components.
    fn from(value: Vec2<u64>) -> (v: Self) {
        Vec2 { x: value.x as u128, y: value.y as u128 }
    }
}

impl vstd::std_specs::convert::FromSpecImpl<Vec2<u64>> for Vec2<u128> {
    open spec fn obeys_from_spec() -> bool {
        true
    }

    open spec fn from_spec(value: Vec2<u64>) -> Vec2<u128> {
        Vec2 { x: value.x as u128, y: value.y as u128 }
    }
}

impl From<Vec2<u8>> for Vec2<u64> {
    /// Widens both components.
    fn from(value: Vec2<u8>) -> (v: Self) {
        Vec2 { x: value.x as u64, y: value.y as u64 }
    }
}

impl vstd::std_specs::convert::FromSpecImpl<Vec2<u8>> for Vec2<u64> {
    open spec fn obeys_from_spec() -> bool {
        true
    }

    open spec fn from_spec(value: Vec2<u8>) -> Vec2<u64> {
        Vec2 { x: value.x as u64, y: value.y as u64 }
    }
}

impl From<Vec2<u16>> for Vec2<u64> {
    /// Widens both components.
    fn from(value: Vec2<u16>) -> (v: Self) {
        Vec2 { x: value.x as u64, y: value.y as u64 }
    }
}

impl vstd::std_specs::convert::FromSpecImpl<Vec2<u16>> for Vec2<u64> {
    open spec fn obeys_from_spec() -> bool {
        true
    }

    open spec fn from_spec(value: Vec2<u16>) -> Vec2<u64> {
        Vec2 { x: value.x as u64, y: value.y as u64 }
    }
}

impl From<Vec2<u32>> for Vec2<u64> {
    /// Widens both components.
    fn from(value: Vec2<u32>) -> (v: Self) {
        Vec2 { x: value.x as u64, y: value.y as u64 }
    }
}

impl vstd::std_specs::convert::FromSpecImpl<Vec2<u32>> for Vec2<u64> {
    open spec fn obeys_from_spec() -> bool {
        true
    }

    open spec fn from_spec(value: Vec2<u32>) -> Vec2<u64> {
        Vec2 { x: value.x as u64, y: value.y as u64 }
    }
}

impl From<Vec2<u8>> for Vec2<u32> {
    /// Widens both components.
    fn from(value: Vec2<u8>) -> (v: Self) {
        Vec2 { x: value.x as u32, y: value.y as u32 }
    }
}

impl vstd::std_specs::convert::FromSpecImpl<Vec2<u8>> for Vec2<u32> {
    open spec fn obeys_from_spec() -> bool {
        true
    }

    open spec fn from_spec(value: Vec2<u8>) -> Vec2<u32> {
        Vec2 { x: value.x as u32, y: value.y as u32 }
    }
}

impl From<Vec2<u16>> for Vec2<u32> {
    /// Widens both components.
    fn from(value: Vec2<u16>) -> (v: Self) {
        Vec2 { x: value.x as u32, y: value.y as u32 }
    }
}

impl vstd::std_specs::convert::FromSpecImpl<Vec2<u16>> for Vec2<u32> {
    open spec fn obeys_from_spec() -> bool {
        true
    }

    open spec fn from_spec(value: Vec2<u16>) -> Vec2<u32> {
        Vec2 { x: value.x as u32, y: value.y as u32 }
    }
}

impl From<Vec2<u8>> for Vec2<u16> {
    /// Widens both components.
    fn from(value: Vec2<u8>) -> (v: Self) {
        Vec2 { x: value.x as u16, y: value.y as u16 }
    }
}

impl vstd::std_specs::convert::FromSpecImpl<Vec2<u8>> for Vec2<u16> {
    open spec fn obeys_from_spec() -> bool {
        true
    }

    open spec fn from_spec(value: Vec2<u8>) -> Vec2<u16> {
        Vec2 { x: value.x as u16, y: value.y as u16 }
    }
}

/// Widening a vector to a wider integer type keeps each component in its place and
/// keeps its value: the result's `x` is the input's `x` and its `y` the input's `y`.
pub proof fn lemma_widening_keeps_components(v_i8: Vec2<i8>, v_i16: Vec2<i16>, v_i32: Vec2<i32>, v_i64: Vec2<i64>, v_u8: Vec2<u8>, v_u16: Vec2<u16>, v_u32: Vec2<u32>, v_u64: Vec2<u64>)
    ensures
        <Vec2<i128> as vstd::std_specs::convert::FromSpec<Vec2<i8>>>::from_spec(v_i8).x as int == v_i8.x as int,
        <Vec2<i128> as vstd::std_specs::convert::FromSpec<Vec2<i8>>>::from_spec(v_i8).y as int == v_i8.y as int,
        <Vec2<i128> as vstd::std_specs::convert::FromSpec<Vec2<i16>>>::from_spec(v_i16).x as int == v_i16.x as int,
        <Vec2<i128> as vstd::std_specs::convert::FromSpec<Vec2<i16>>>::from_spec(v_i16).y as int == v_i16.y as int,
        <Vec2<i128> as vstd::std_specs::convert::FromSpec<Vec2<i32>>>::from_spec(v_i32).x as int == v_i32.x as int,
        <Vec2<i128> as vstd::std_specs::convert::FromSpec<Vec2<i32>>>::from_spec(v_i32).y as int == v_i32.y as int,
        <Vec2<i128> as vstd::std_specs::convert::FromSpec<Vec2<i64>>>::from_spec(v_i64).x as int == v_i64.x as int,
        <Vec2<i128> as vstd::std_specs::convert::FromSpec<Vec2<i64>>>::from_spec(v_i64).y as int == v_i64.y as int,
        <Vec2<i128> as vstd::std_specs::convert::FromSpec<Vec2<u8>>>::from_spec(v_u8).x as int == v_u8.x as int,
        <Vec2<i128> as vstd::std_specs::convert::FromSpec<Vec2<u8>>>::from_spec(v_u8).y as int == v_u8.y as int,
        <Vec2<i128> as vstd::std_specs::convert::FromSpec<Vec2<u16>>>::from_spec(v_u16).x as int == v_u16.x as int,
        <Vec2<i128> as vstd::std_specs::convert::FromSpec<Vec2<u16>>>::from_spec(v_u16).y as int == v_u16.y as int,
        <Vec2<i128> as vstd::std_specs::convert::FromSpec<Vec2<u32>>>::from_spec(v_u32).x as int == v_u32.x as int,
        <Vec2<i128> as vstd::std_specs::convert::FromSpec<Vec2<u32>>>::from_spec(v_u32).y as int == v_u32.y as int,
        <Vec2<i128> as vstd::std_specs::convert::FromSpec<Vec2<u64>>>::from_spec(v_u64).x as int == v_u64.x as int,
        <Vec2<i128> as vstd::std_specs::convert::FromSpec<Vec2<u64>>>::from_spec(v_u64).y as int == v_u64.y as int,
        <Vec2<i64> as vstd::std_specs::convert::FromSpec<Vec2<i8>>>::from_spec(v_i8).x as int == v_i8.x as int,
        <Vec2<i64> as vstd::std_specs::convert::FromSpec<Vec2<i8>>>::from_spec(v_i8).y as int == v_i8.y as int,
        <Vec2<i64> as vstd::std_specs::convert::FromSpec<Vec2<i16>>>::from_spec(v_i16).x as int == v_i16.x as int,
        <Vec2<i64> as vstd::std_specs::convert::FromSpec<Vec2<i16>>>::from_spec(v_i16).y as int == v_i16.y as int,
        <Vec2<i64> as vstd::std_specs::convert::FromSpec<Vec2<i32>>>::from_spec(v_i32).x as int == v_i32.x as int,
        <Vec2<i64> as vstd::std_specs::convert::FromSpec<Vec2<i32>>>::from_spec(v_i32).y as int == v_i32.y as int,
        <Vec2<i64> as vstd::std_specs::convert::FromSpec<Vec2<u8>>>::from_spec(v_u8).x as int == v_u8.x as int,
        <Vec2<i64> as vstd::std_specs::convert::FromSpec<Vec2<u8>>>::from_spec(v_u8).y as int == v_u8.y as int,
        <Vec2<i64> as vstd::std_specs::convert::FromSpec<Vec2<u16>>>::from_spec(v_u16).x as int == v_u16.x as int,
        <Vec2<i64> as vstd::std_specs::convert::FromSpec<Vec2<u16>>>::from_spec(v_u16).y as int == v_u16.y as int,
        <Vec2<i64> as vstd::std_specs::convert::FromSpec<Vec2<u32>>>::from_spec(v_u32).x as int == v_u32.x as int,
        <Vec2<i64> as vstd::std_specs::convert::FromSpec<Vec2<u32>>>::from_spec(v_u32).y as int == v_u32.y as int,
        <Vec2<i32> as vstd::std_specs::convert::FromSpec<Vec2<i8>>>::from_spec(v_i8).x as int == v_i8.x as int,
        <Vec2<i32> as vstd::std_specs::convert::FromSpec<Vec2<i8>>>::from_spec(v_i8).y as int == v_i8.y as int,
        <Vec2<i32> as vstd::std_specs::convert::FromSpec<Vec2<i16>>>::from_spec(v_i16).x as int == v_i16.x as int,
        <Vec2<i32> as vstd::std_specs::convert::FromSpec<Vec2<i16>>>::from_spec(v_i16).y as int == v_i16.y as int,
        <Vec2<i32> as vstd::std_specs::convert::FromSpec<Vec2<u8>>>::from_spec(v_u8).x as int == v_u8.x as int,
        <Vec2<i32> as vstd::std_specs::convert::FromSpec<Vec2<u8>>>::from_spec(v_u8).y as int == v_u8.y as int,
        <Vec2<i32> as vstd::std_specs::convert::FromSpec<Vec2<u16>>>::from_spec(v_u16).x as int == v_u16.x as int,
        <Vec2<i32> as vstd::std_specs::convert::FromSpec<Vec2<u16>>>::from_spec(v_u16).y as int == v_u16.y as int,
        <Vec2<i16> as vstd::std_specs::convert::FromSpec<Vec2<i8>>>::from_spec(v_i8).x as int == v_i8.x as int,
        <Vec2<i16> as vstd::std_specs::convert::FromSpec<Vec2<i8>>>::from_spec(v_i8).y as int == v_i8.y as int,
        <Vec2<i16> as vstd::std_specs::convert::FromSpec<Vec2<u8>>>::from_spec(v_u8).x as int == v_u8.x as int,
        <Vec2<i16> as vstd::std_specs::convert::FromSpec<Vec2<u8>>>::from_spec(v_u8).y as int == v_u8.y as int,
        <Vec2<u128> as vstd::std_specs::convert::FromSpec<Vec2<u8>>>::from_spec(v_u8).x as int == v_u8.x as int,
        <Vec2<u128> as vstd::std_specs::convert::FromSpec<Vec2<u8>>>::from_spec(v_u8).y as int == v_u8.y as int,
        <Vec2<u128> as vstd::std_specs::convert::FromSpec<Vec2<u16>>>::from_spec(v_u16).x as int == v_u16.x as int,
        <Vec2<u128> as vstd::std_specs::convert::FromSpec<Vec2<u16>>>::from_spec(v_u16).y as int == v_u16.y as int,
        <Vec2<u128> as vstd::std_specs::convert::FromSpec<Vec2<u32>>>::from_spec(v_u32).x as int == v_u32.x as int,
        <Vec2<u128> as vstd::std_specs::convert::FromSpec<Vec2<u32>>>::from_spec(v_u32).y as int == v_u32.y as int,
        <Vec2<u128> as vstd::std_specs::convert::FromSpec<Vec2<u64>>>::from_spec(v_u64).x as int == v_u64.x as int,
        <Vec2<u128> as vstd::std_specs::convert::FromSpec<Vec2<u64>>>::from_spec(v_u64).y as int == v_u64.y as int,
        <Vec2<u64> as vstd::std_specs::convert::FromSpec<Vec2<u8>>>::from_spec(v_u8).x as int == v_u8.x as int,
        <Vec2<u64> as vstd::std_specs::convert::FromSpec<Vec2<u8>>>::from_spec(v_u8).y as int == v_u8.y as int,
        <Vec2<u64> as vstd::std_specs::convert::FromSpec<Vec2<u16>>>::from_spec(v_u16).x as int == v_u16.x as int,
        <Vec2<u64> as vstd::std_specs::convert::FromSpec<Vec2<u16>>>::from_spec(v_u16).y as int == v_u16.y as int,
        <Vec2<u64> as vstd::std_specs::convert::FromSpec<Vec2<u32>>>::from_spec(v_u32).x as int == v_u32.x as int,
        <Vec2<u64> as vstd::std_specs::convert::FromSpec<Vec2<u32>>>::from_spec(v_u32).y as int == v_u32.y as int,
        <Vec2<u32> as vstd::std_specs::convert::FromSpec<Vec2<u8>>>::from_spec(v_u8).x as int == v_u8.x as int,
        <Vec2<u32> as vstd::std_specs::convert::FromSpec<Vec2<u8>>>::from_spec(v_u8).y as int == v_u8.y as int,
        <Vec2<u32> as vstd::std_specs::convert::FromSpec<Vec2<u16>>>::from_spec(v_u16).x as int == v_u16.x as int,
        <Vec2<u32> as vstd::std_specs::convert::FromSpec<Vec2<u16>>>::from_spec(v_u16).y as int == v_u16.y as int,
        <Vec2<u16> as vstd::std_specs::convert::FromSpec<Vec2<u8>>>::from_spec(v_u8).x as int == v_u8.x as int,
        <Vec2<u16> as vstd::std_specs::convert::FromSpec<Vec2<u8>>>::from_spec(v_u8).y as int == v_u8.y as int,
{
}

/// The arithmetic operators act on each component separately: the result's `x` is
/// the operation on the two `x` components and its `y` the operation on the two `y`
/// components, whenever those fit the type.
pub proof fn lemma_ops_act_per_component(a: Vec2<i64>, b: Vec2<i64>)
    ensures
        (i64::MIN <= a.x + b.x <= i64::MAX && i64::MIN <= a.y + b.y <= i64::MAX) ==> a.add_spec(b).x == a.x
            + b.x && a.add_spec(b).y == a.y + b.y,
        (i64::MIN <= a.x - b.x <= i64::MAX && i64::MIN <= a.y - b.y <= i64::MAX) ==> a.sub_spec(b).x == a.x
            - b.x && a.sub_spec(b).y == a.y - b.y,
        (i64::MIN <= a.x * b.x <= i64::MAX && i64::MIN <= a.y * b.y <= i64::MAX) ==> a.mul_spec(b).x == a.x
            * b.x && a.mul_spec(b).y == a.y * b.y,
        (a.x >= 0 && b.x > 0 && a.y >= 0 && b.y > 0) ==> a.div_spec(b).x == a.x / b.x && a.div_spec(b).y
            == a.y / b.y,
{
}

/// A vector turned into a pair has `x` first and `y` second, and turning the pair
/// back gives the same vector; the same holds starting from a pair.
pub proof fn lemma_pair_conversions(v: Vec2<i64>, p: (i64, i64))
    ensures
        <(i64, i64) as vstd::std_specs::convert::FromSpec<Vec2<i64>>>::from_spec(v).0 == v.x,
        <(i64, i64) as vstd::std_specs::convert::FromSpec<Vec2<i64>>>::from_spec(v).1 == v.y,
        <Vec2<i64> as vstd::std_specs::convert::FromSpec<(i64, i64)>>::from_spec(
            <(i64, i64) as vstd::std_specs::convert::FromSpec<Vec2<i64>>>::from_spec(v),
        ) == v,
        <Vec2<i64> as vstd::std_specs::convert::FromSpec<(i64, i64)>>::from_spec(p).x == p.0,
        <Vec2<i64> as vstd::std_specs::convert::FromSpec<(i64, i64)>>::from_spec(p).y == p.1,
{
}

} // verus!
