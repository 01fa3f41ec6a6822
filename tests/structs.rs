use rust_examples::structs::{
    area, derived_impls, derived_traits, refactored_area, refactored_structs, refactoring_tuples,
    structs_area, structs_data, Rectangle,
};

#[test]
fn area_of_loose_values() {
    assert_eq!(area(30, 50), 1500);
    assert_eq!(area(0, 50), 0);
    assert_eq!(area(65535, 65537), u32::MAX);
}

#[test]
fn area_of_tuple() {
    assert_eq!(refactored_area((30, 50)), 1500);
    assert_eq!(refactored_area((7, 3)), 21);
}

#[test]
fn area_of_struct() {
    let rect = Rectangle { width: 30, height: 50 };
    assert_eq!(structs_area(&rect), 1500);
    assert_eq!(structs_area(&Rectangle { width: 1, height: 1 }), 1);
}

#[test]
fn fixed_rectangle_areas() {
    assert_eq!(structs_data(), 1500);
    assert_eq!(refactoring_tuples(), 1500);
    assert_eq!(refactored_structs(), 1500);
}

#[test]
fn derived_rectangles() {
    assert_eq!(derived_traits(), Rectangle { width: 30, height: 50 });
    assert_eq!(derived_impls(), Rectangle { width: 60, height: 50 });
    assert_eq!(
        format!("{:?}", derived_traits()),
        "Rectangle { width: 30, height: 50 }"
    );
}
