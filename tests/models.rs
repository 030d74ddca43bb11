use valuator::{Property, Valuation, ValuatorError};

#[test]
fn test_property_creation() {
    let property = Property {
        id: "PROP-001".to_string(),
        address: "123 Main St".to_string(),
        square_feet: 250_000,
        bedrooms: 3,
        bathrooms: 250,
    };
    assert_eq!(property.id, "PROP-001");
    assert_eq!(property.square_feet, 250_000);
}

#[test]
fn test_valuation_calculation() {
    let valuation = Valuation {
        property_id: "PROP-001".to_string(),
        estimated_value: 45_000_000,
        confidence_level: 85,
        methodology: "Comparative Market Analysis".to_string(),
    };
    assert!(valuation.confidence_level > 0 && valuation.confidence_level <= 100);
}

#[test]
fn error_text_names_kind_and_message() {
    let e = ValuatorError::ValidationError("Region cannot be empty".to_string());
    assert_eq!(e.to_string(), "Data validation error: Region cannot be empty");
    let e = ValuatorError::Internal("boom".to_string());
    assert_eq!(e.to_string(), "Internal error: boom");
    let e = ValuatorError::InvalidProperty("x".to_string());
    assert_eq!(e.to_string(), "Invalid property data: x");
    let e = ValuatorError::ValuationFailed("x".to_string());
    assert_eq!(e.to_string(), "Valuation calculation failed: x");
    let e = ValuatorError::MarketDataUnavailable("x".to_string());
    assert_eq!(e.to_string(), "Market data unavailable: x");
    let e = ValuatorError::RiskAssessmentError("x".to_string());
    assert_eq!(e.to_string(), "Risk assessment error: x");
}
