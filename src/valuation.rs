//! The valuation calculator: a fixed linear price model over a property's size.

use vstd::prelude::*;
use crate::error::{ValuatorError, ValuatorErrorView};
use crate::models::{Property, PropertyView, Valuation, ValuationView};
use crate::validation::{is_valid_property, validate_property, validation_error};

verus! {

/// Price of one hundredth of a square foot, in cents (200 per square foot).
pub const PRICE_PER_SQUARE_FOOT: u128 = 200;

/// Price of one bedroom, in cents (25 000).
pub const PRICE_PER_BEDROOM: u128 = 2_500_000;

/// Price of one hundredth of a bathroom, in cents (15 000 per bathroom).
pub const PRICE_PER_BATHROOM: u128 = 15_000;

/// Confidence attached to every valuation: 0.85, in hundredths.
pub const CONFIDENCE_LEVEL: u32 = 85;

/// The estimated value of a property, in cents.
pub open spec fn estimated_value_of(p: PropertyView) -> int {
    p.square_feet * PRICE_PER_SQUARE_FOOT + p.bedrooms * PRICE_PER_BEDROOM + p.bathrooms
        * PRICE_PER_BATHROOM
}

/// The valuation of a valid property.
pub open spec fn valuation_of(p: PropertyView) -> ValuationView {
    ValuationView {
        property_id: p.id,
        estimated_value: estimated_value_of(p) as nat,
        confidence_level: CONFIDENCE_LEVEL as nat,
        methodology: "TerraFusion Automated Valuation Model"@,
    }
}

/// What valuing `p` gives: its valuation when valid, else the validator's error.
pub open spec fn valuation_result_of(p: PropertyView) -> Result<ValuationView, ValuatorErrorView> {
    if is_valid_property(p) {
        Ok(valuation_of(p))
    } else {
        Err(validation_error(p))
    }
}

/// The mathematical value of what [`ValuationEngine::calculate_valuation`] returns.
pub open spec fn valuation_result_view(r: Result<Valuation, ValuatorError>) -> Result<
    ValuationView,
    ValuatorErrorView,
> {
    match r {
        Ok(v) => Ok(v@),
        Err(e) => Err(e@),
    }
}

/// Prices properties. It holds no state.
pub struct ValuationEngine;

impl ValuationEngine {
    /// Makes an engine.
    pub fn new() -> (r: Self)
        ensures
            r == (ValuationEngine {}),
    {
        ValuationEngine
    }

    /// Prices a property after validating it; an invalid property gives the
    /// validator's error.
    pub fn calculate_valuation(&self, property: &Property) -> (r: Result<Valuation, ValuatorError>)
        ensures
            valuation_result_view(r) == valuation_result_of(property@),
            r matches Ok(v) ==> v.estimated_value > 0,
    {
        match validate_property(property) {
            Ok(()) => {},
            Err(e) => {
                return Err(e);
            },
        }
        let base_value = property.square_feet as u128 * PRICE_PER_SQUARE_FOOT;
        let bedroom_adjustment = property.bedrooms as u128 * PRICE_PER_BEDROOM;
        let bathroom_adjustment = property.bathrooms as u128 * PRICE_PER_BATHROOM;
        let estimated_value = base_value + bedroom_adjustment + bathroom_adjustment;
        Ok(
            Valuation {
                property_id: property.id.clone(),
                estimated_value,
                confidence_level: CONFIDENCE_LEVEL,
                methodology: "TerraFusion Automated Valuation Model".to_string(),
            },
        )
    }
}

impl Default for ValuationEngine {
    fn default() -> (r: Self)
        ensures
            r == (ValuationEngine {}),
    {
        ValuationEngine::new()
    }
}

} // verus!
