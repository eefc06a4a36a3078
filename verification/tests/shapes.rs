use guessing_game::rectangle::{area_with_tuple, area_with_variables, Rectangle};
use guessing_game::variables::{string_size, sum};

#[test]
fn area_three_ways() {
    let rec = Rectangle { width: 30, height: 50 };
    assert_eq!(area_with_variables(rec.width, rec.height), 1500);
    assert_eq!(area_with_tuple((rec.width, rec.height)), 1500);
    assert_eq!(rec.area(), 1500);
}

#[test]
fn area_edge_cases() {
    assert_eq!(Rectangle { width: 0, height: 7 }.area(), 0);
    assert_eq!(Rectangle { width: -3, height: -4 }.area(), 12);
    assert_eq!(Rectangle { width: 46340, height: 46340 }.area(), 2147395600);
    assert_eq!(Rectangle { width: -2, height: 3 }.area(), (-6i32) as usize);
    assert_eq!(area_with_variables(-1, 1), usize::MAX);
    assert_eq!(area_with_tuple((i32::MIN, 1)), i32::MIN as usize);
}

#[test]
fn can_hold_needs_room_on_both_sides() {
    let rect1 = Rectangle { width: 30, height: 50 };
    let rect2 = Rectangle { width: 10, height: 40 };
    let rect3 = Rectangle { width: 60, height: 45 };
    assert!(rect1.can_hold(&rect2));
    assert!(!rect1.can_hold(&rect3));
    assert!(!rect1.can_hold(&rect1));
    assert!(!rect1.can_hold(&Rectangle { width: 29, height: 50 }));
    assert!(!rect1.can_hold(&Rectangle { width: 30, height: 49 }));
}

#[test]
fn square_has_equal_sides() {
    let sq = Rectangle::square(50);
    assert_eq!(sq, Rectangle { width: 50, height: 50 });
    assert_eq!(sq.area(), 2500);
    assert_eq!(Rectangle::square(-1), Rectangle { width: -1, height: -1 });
}

#[test]
fn string_size_counts_bytes() {
    assert_eq!(string_size("Guilherme"), 9);
    assert_eq!(string_size(""), 0);
    assert_eq!(string_size("número"), 7);
}

#[test]
fn sum_adds() {
    assert_eq!(sum(2, 3), 5);
    assert_eq!(sum(-7, 7), 0);
    assert_eq!(sum(i32::MAX, 0), i32::MAX);
    assert_eq!(sum(i32::MIN, i32::MAX), -1);
}
