use valuator::{validate_property, Property, ValuatorError};

fn property(id: &str, address: &str, square_feet: i64, bedrooms: u32, bathrooms: i64) -> Property {
    Property {
        id: id.to_string(),
        address: address.to_string(),
        square_feet,
        bedrooms,
        bathrooms,
    }
}

fn failure_message(p: &Property) -> String {
    match validate_property(p) {
        Err(ValuatorError::ValidationError(m)) => m,
        other => panic!("expected a validation error, got {:?}", other),
    }
}

#[test]
fn test_valid_property() {
    let property = Property {
        id: "VALID-001".to_string(),
        address: "789 Elm St".to_string(),
        square_feet: 200_000,
        bedrooms: 3,
        bathrooms: 200,
    };

    assert!(validate_property(&property).is_ok());
}

#[test]
fn test_invalid_empty_id() {
    let property = Property {
        id: "".to_string(),
        address: "789 Elm St".to_string(),
        square_feet: 200_000,
        bedrooms: 3,
        bathrooms: 200,
    };

    assert!(validate_property(&property).is_err());
}

#[test]
fn test_invalid_zero_square_feet() {
    let property = Property {
        id: "INVALID-001".to_string(),
        address: "789 Elm St".to_string(),
        square_feet: 0,
        bedrooms: 3,
        bathrooms: 200,
    };

    assert!(validate_property(&property).is_err());
}

#[test]
fn each_single_violation_has_its_own_message() {
    let cases = [
        (property("", "1 A St", 100, 1, 100), "Property ID cannot be empty"),
        (property("P", "", 100, 1, 100), "Address cannot be empty"),
        (property("P", "1 A St", 0, 1, 100), "Square feet must be positive"),
        (property("P", "1 A St", -5, 1, 100), "Square feet must be positive"),
        (property("P", "1 A St", 100, 0, 100), "Bedrooms must be at least 1"),
        (property("P", "1 A St", 100, 1, 0), "Bathrooms must be positive"),
        (property("P", "1 A St", 100, 1, -250), "Bathrooms must be positive"),
    ];
    for (p, message) in cases.iter() {
        assert_eq!(failure_message(p), *message);
    }
}

#[test]
fn first_failing_check_wins() {
    let p = property("", "", 0, 0, 0);
    assert_eq!(failure_message(&p), "Property ID cannot be empty");
    let p = property("P", "1 A St", 0, 0, 0);
    assert_eq!(failure_message(&p), "Square feet must be positive");
    let p = property("P", "1 A St", 1, 0, -1);
    assert_eq!(failure_message(&p), "Bedrooms must be at least 1");
}

#[test]
fn smallest_positive_measures_are_valid() {
    assert!(validate_property(&property("P", "A", 1, 1, 1)).is_ok());
    assert!(validate_property(&property("P", "A", i64::MAX, u32::MAX, i64::MAX)).is_ok());
}
