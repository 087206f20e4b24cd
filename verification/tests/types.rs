use arrowcss::types::{CssDataType, CssProperty, TypeValidator, Validator};

#[test]
fn data_types_check_values() {
    assert!(CssDataType::Color.validate("#112233"));
    assert!(CssDataType::Color.validate("red"));
    assert!(!CssDataType::Color.validate("12px"));
    assert!(CssDataType::Length.validate("12px"));
    assert!(!CssDataType::Length.validate("red"));
    assert!(CssDataType::LengthPercentage.validate("50%"));
    assert!(CssDataType::Percentage.validate("50%"));
    assert!(!CssDataType::Percentage.validate("50px"));
    assert!(CssDataType::Number.validate("3"));
    assert!(!CssDataType::Number.validate("three"));
    assert!(CssDataType::Time.validate("1s"));
    assert!(CssDataType::Ident.validate("auto"));
    assert!(CssDataType::Any.validate("anything at all"));
}

#[test]
fn property_checks_values() {
    let p = CssProperty::new("font-size");
    assert!(p.validate("16px"));
    assert!(p.validate("larger"));
    assert!(!p.validate("red"));
}

#[test]
fn validator_from_name() {
    assert!(matches!(Validator::from_name("color"), Ok(Validator::DataType(CssDataType::Color))));
    assert!(matches!(
        Validator::from_name("length-percentage"),
        Ok(Validator::DataType(CssDataType::LengthPercentage))
    ));
    match Validator::from_name("background-position") {
        Ok(Validator::Property(p)) => assert_eq!(p.name, "background-position"),
        _ => panic!("expected a property"),
    }
    match Validator::from_name("not-a-thing") {
        Err(m) => assert_eq!(m, "expect css data type or property id, found `not-a-thing`"),
        _ => panic!("expected an error"),
    }
}

#[test]
fn data_type_from_name() {
    assert_eq!(CssDataType::from_name("number"), Some(CssDataType::Number));
    assert_eq!(CssDataType::from_name("image"), Some(CssDataType::Image));
    assert_eq!(CssDataType::from_name("Number"), None);
}
