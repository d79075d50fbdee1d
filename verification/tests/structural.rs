use civil::structural::beams::SupportType;

#[test]
fn structural_we_can_test() {
    assert!(true)
}

#[test]
fn support_types_are_distinct() {
    assert_ne!(SupportType::Fixed, SupportType::Simple);
    assert_eq!(SupportType::Fixed, SupportType::Fixed);
    let copy = SupportType::Simple;
    assert_eq!(copy, SupportType::Simple);
}
