use ratoms::dimensions::{
    test_sufficient_dimensions, Dimensions, MINIMUM_WINDOW_HEIGHT, MINIMUM_WINDOW_WIDTH,
};

#[test]
fn minimum_surface_passes() {
    assert_eq!(MINIMUM_WINDOW_WIDTH, 216);
    assert_eq!(MINIMUM_WINDOW_HEIGHT, 54);
    assert!(test_sufficient_dimensions(Dimensions { width: 216, height: 54 }).is_ok());
    assert!(test_sufficient_dimensions(Dimensions { width: 1000, height: 1000 }).is_ok());
}

#[test]
fn narrow_surface_fails_naming_both_sizes() {
    let msg = test_sufficient_dimensions(Dimensions { width: 215, height: 54 }).unwrap_err();
    assert_eq!(msg, "insufficient dimensions: is 215x54 but should be at least 216x54");
}

#[test]
fn short_surface_fails_naming_both_sizes() {
    let msg = test_sufficient_dimensions(Dimensions { width: 216, height: 53 }).unwrap_err();
    assert_eq!(msg, "insufficient dimensions: is 216x53 but should be at least 216x54");
}

#[test]
fn tiny_surface_fails() {
    let msg = test_sufficient_dimensions(Dimensions { width: 0, height: 0 }).unwrap_err();
    assert_eq!(msg, "insufficient dimensions: is 0x0 but should be at least 216x54");
}
