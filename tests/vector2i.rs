use math2d::{Sizeu, Vector2i};

#[test]
fn addition() {
    let val = Vector2i::zero() + [1, 2] + [3, 4];
    assert_eq!(val, Vector2i::new(4, 6));
}

#[test]
fn subtraction() {
    let val = Vector2i::zero() - [5, 3] + [2, 0] - [1, 1];
    assert_eq!(val, Vector2i::new(-4, -4));
}

#[test]
fn vector_add_sub_vectors() {
    let a = Vector2i::new(3, -4);
    let b = Vector2i::new(-10, 20);
    assert_eq!(a + b, Vector2i::new(-7, 16));
    assert_eq!(a - b, Vector2i::new(13, -24));
}

#[test]
fn vector_negation_and_scaling() {
    let a = Vector2i::new(3, -4);
    assert_eq!(-a, Vector2i::new(-3, 4));
    assert_eq!(a * 5, Vector2i::new(15, -20));
    assert_eq!(-2 * a, Vector2i::new(-6, 8));
}

#[test]
fn vector_division_rounds_toward_zero() {
    let a = Vector2i::new(-7, 7);
    assert_eq!(a / 2, Vector2i::new(-3, 3));
    assert_eq!(a / -2, Vector2i::new(3, -3));
    assert_eq!(7 / Vector2i::new(2, -3), Vector2i::new(3, -2));
    assert_eq!(-7 / Vector2i::new(2, -3), Vector2i::new(-3, 2));
}

#[test]
fn vector_assign_operators() {
    let mut v = Vector2i::new(1, 2);
    v += Vector2i::new(10, 20);
    assert_eq!(v, Vector2i::new(11, 22));
    v -= Vector2i::new(1, 2);
    assert_eq!(v, Vector2i::new(10, 20));
    v *= 3;
    assert_eq!(v, Vector2i::new(30, 60));
    v /= -7;
    assert_eq!(v, Vector2i::new(-4, -8));
}

#[test]
fn vector_abs() {
    assert_eq!(Vector2i::new(-5, 6).abs(), Vector2i::new(5, 6));
    assert_eq!(Vector2i::new(i32::MAX, -i32::MAX).abs(), Vector2i::new(i32::MAX, i32::MAX));
}

#[test]
fn vector_as_size_reinterprets_bits() {
    assert_eq!(Vector2i::new(640, 480).as_size(), Sizeu::new(640, 480));
    assert_eq!(Vector2i::new(-1, i32::MIN).as_size(), Sizeu::new(u32::MAX, 0x8000_0000));
}

#[test]
fn vector_array_and_mint_conversions() {
    let v = Vector2i::from([8, -9]);
    assert_eq!(v, Vector2i::new(8, -9));
    let arr: [i32; 2] = v.into();
    assert_eq!(arr, [8, -9]);
    let m: mint::Vector2<i32> = v.into();
    assert_eq!(m, mint::Vector2 { x: 8, y: -9 });
    assert_eq!(Vector2i::from(mint::Vector2 { x: 1, y: 2 }), Vector2i::new(1, 2));
}

#[test]
fn vector_zero_and_default() {
    assert_eq!(Vector2i::zero(), Vector2i::new(0, 0));
    assert_eq!(Vector2i::default(), Vector2i::zero());
}

#[test]
fn size_constructors() {
    assert_eq!(Sizeu::new(3, 4), Sizeu { width: 3, height: 4 });
    assert_eq!(Sizeu::from(7), Sizeu::new(7, 7));
    assert_eq!(Sizeu::from((5, 6)), Sizeu::new(5, 6));
}
