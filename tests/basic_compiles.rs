use byond_fn::example::{add, add_optional};

#[test]
fn basic_compiles_compiles() {
    assert_eq!(add(2, 2), 4);
    assert_eq!(add_optional(2, None), 2);
}

#[test]
fn expected_simple() {
    assert_eq!(add_optional(2, Some(3)), 5);
}
