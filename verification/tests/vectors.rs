use bottomless_pit::matrix_math::normalize_points;
use bottomless_pit::vectors::Vec2;

#[test]
fn vector_basics() {
    let v = Vec2::new(3u32, 4u32);
    assert_eq!(v, Vec2 { x: 3, y: 4 });
    assert_eq!(v.to_raw(), [3, 4]);
    assert_eq!(v.scale(2), Vec2 { x: 6, y: 8 });
    let pair: (u32, u32) = v.into();
    assert_eq!(pair, (3, 4));
    assert_eq!(Vec2::from((5i32, -6i32)), Vec2 { x: 5, y: -6 });
}

#[test]
fn vector_arithmetic() {
    let a = Vec2 { x: 10i32, y: 20 };
    let b = Vec2 { x: 2i32, y: 5 };
    assert_eq!(a + b, Vec2 { x: 12, y: 25 });
    assert_eq!(a - b, Vec2 { x: 8, y: 15 });
    assert_eq!(a * b, Vec2 { x: 20, y: 100 });
    assert_eq!(a / b, Vec2 { x: 5, y: 4 });
}

#[test]
fn vector_widening() {
    let small = Vec2 { x: 200u8, y: 7u8 };
    assert_eq!(Vec2::<u32>::from(small), Vec2 { x: 200u32, y: 7 });
    assert_eq!(Vec2::<i16>::from(small), Vec2 { x: 200i16, y: 7 });
    let neg = Vec2 { x: -5i8, y: 127i8 };
    assert_eq!(Vec2::<i128>::from(neg), Vec2 { x: -5i128, y: 127 });
    assert_eq!(Vec2::<u64>::from(Vec2 { x: u32::MAX, y: 0 }), Vec2 { x: u32::MAX as u64, y: 0 });
}

#[test]
fn normalizing() {
    assert_eq!(normalize_points(Vec2 { x: 50u32, y: 30 }, Vec2 { x: 10, y: 3 }), Vec2 { x: 5, y: 10 });
}
