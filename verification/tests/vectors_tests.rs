use viewport_core::common::Direction;
use viewport_core::vectors::Vec2;

#[test]
fn from_u16_tuple_keeps_components() {
    let v = Vec2::from_u16_tuple((3, 7));
    assert_eq!(v, Vec2 { x: 3, y: 7 });
}

#[test]
fn line_start_with_gutter_names_the_row() {
    let v = Vec2::line_start_with_gutter(5);
    assert_eq!(v, Vec2 { x: 0, y: 5 });
}

#[test]
fn projected_by_adds_componentwise() {
    let a = Vec2 { x: 2, y: 3 };
    let b = Vec2 { x: 10, y: 20 };
    assert_eq!(a.projected_by(b), Vec2 { x: 12, y: 23 });
}

#[test]
fn projected_by_saturates_at_the_top() {
    let a = Vec2 { x: u16::MAX, y: u16::MAX - 1 };
    let b = Vec2 { x: 1, y: 5 };
    assert_eq!(a.projected_by(b), Vec2 { x: u16::MAX, y: u16::MAX });
}

#[test]
fn unprojected_from_floors_at_zero() {
    let a = Vec2 { x: 2, y: 30 };
    let b = Vec2 { x: 10, y: 20 };
    assert_eq!(a.unprojected_from(b), Vec2 { x: 0, y: 10 });
}

#[test]
fn shifted_left_at_zero_is_a_no_op() {
    let origin = Vec2 { x: 0, y: 4 };
    assert_eq!(origin.shifted(Direction::Left), origin);
}

#[test]
fn shifted_up_at_zero_is_a_no_op() {
    let origin = Vec2 { x: 4, y: 0 };
    assert_eq!(origin.shifted(Direction::Up), origin);
}

#[test]
fn shifted_steps_one_unit() {
    let p = Vec2 { x: 3, y: 3 };
    assert_eq!(p.shifted(Direction::Up), Vec2 { x: 3, y: 2 });
    assert_eq!(p.shifted(Direction::Down), Vec2 { x: 3, y: 4 });
    assert_eq!(p.shifted(Direction::Left), Vec2 { x: 2, y: 3 });
    assert_eq!(p.shifted(Direction::Right), Vec2 { x: 4, y: 3 });
}

#[test]
fn shifted_saturates_at_the_top() {
    let p = Vec2 { x: u16::MAX, y: u16::MAX };
    assert_eq!(p.shifted(Direction::Right), p);
    assert_eq!(p.shifted(Direction::Down), p);
}

#[test]
fn is_between_is_inclusive_containment() {
    let lo = Vec2 { x: 2, y: 3 };
    let hi = Vec2 { x: 5, y: 6 };
    assert!(Vec2 { x: 2, y: 3 }.is_between(lo, hi));
    assert!(Vec2 { x: 5, y: 6 }.is_between(lo, hi));
    assert!(Vec2 { x: 4, y: 5 }.is_between(lo, hi));
    assert!(!Vec2 { x: 1, y: 5 }.is_between(lo, hi));
    assert!(!Vec2 { x: 6, y: 5 }.is_between(lo, hi));
    assert!(!Vec2 { x: 4, y: 2 }.is_between(lo, hi));
    assert!(!Vec2 { x: 4, y: 7 }.is_between(lo, hi));
}

#[test]
fn default_is_the_origin() {
    assert_eq!(Vec2::default(), Vec2 { x: 0, y: 0 });
}
