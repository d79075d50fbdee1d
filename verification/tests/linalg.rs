use civil::calc::linalg::{check_product, MatrixError};

#[test]
fn error_keeps_its_message() {
    let error = MatrixError::new("no pivot");
    assert_eq!(error.description(), "no pivot");
    assert_eq!(MatrixError::new("").description(), "");
}

#[test]
fn matching_sizes_are_accepted() {
    assert!(check_product(3, 3, 9).is_ok());
    assert!(check_product(2, 4, 8).is_ok());
    assert!(check_product(0, 5, 0).is_ok());
    assert!(check_product(1, 1, 1).is_ok());
}

#[test]
fn mismatched_sizes_are_refused_with_the_message() {
    let error = check_product(3, 3, 8).unwrap_err();
    assert_eq!(error.description(), "Matrices are of incompatible size!");
    assert!(check_product(2, 4, 9).is_err());
    assert!(check_product(0, 5, 1).is_err());
}

#[test]
fn a_product_too_large_to_count_is_refused() {
    assert!(check_product(usize::MAX, 2, usize::MAX - 1).is_err());
    assert!(check_product(usize::MAX, usize::MAX, 1).is_err());
}
