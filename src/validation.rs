//! The property validator shared by every calculator.

use vstd::prelude::*;
use crate::error::{ValuatorError, ValuatorErrorView};
use crate::models::{Property, PropertyView};

verus! {

/// Every field of the property meets its constraint.
pub open spec fn is_valid_property(p: PropertyView) -> bool {
    &&& p.id.len() > 0
    &&& p.address.len() > 0
    &&& p.square_feet > 0
    &&& p.bedrooms >= 1
    &&& p.bathrooms > 0
}

/// The reason for the first failing check, taken in the order id, address,
/// square feet, bedrooms, bathrooms; `None` when all of them pass.
pub open spec fn validation_failure(p: PropertyView) -> Option<Seq<char>> {
    if p.id.len() == 0 {
        Some("Property ID cannot be empty"@)
    } else if p.address.len() == 0 {
        Some("Address cannot be empty"@)
    } else if p.square_feet <= 0 {
        Some("Square feet must be positive"@)
    } else if p.bedrooms == 0 {
        Some("Bedrooms must be at least 1"@)
    } else if p.bathrooms <= 0 {
        Some("Bathrooms must be positive"@)
    } else {
        None
    }
}

/// The error that validating `p` gives, when it fails.
pub open spec fn validation_error(p: PropertyView) -> ValuatorErrorView {
    ValuatorErrorView::ValidationError(validation_failure(p).unwrap())
}

/// Checks every field of the property, stopping at the first that fails.
pub fn validate_property(property: &Property) -> (r: Result<(), ValuatorError>)
    ensures
        r is Ok <==> is_valid_property(property@),
        r is Ok <==> validation_failure(property@) is None,
        r matches Err(e) ==> e@ == validation_error(property@),
{
    if property.id.as_str().is_empty() {
        return Err(ValuatorError::ValidationError("Property ID cannot be empty".to_string()));
    }
    if property.address.as_str().is_empty() {
        return Err(ValuatorError::ValidationError("Address cannot be empty".to_string()));
    }
    if property.square_feet <= 0 {
        return Err(ValuatorError::ValidationError("Square feet must be positive".to_string()));
    }
    if property.bedrooms == 0 {
        return Err(ValuatorError::ValidationError("Bedrooms must be at least 1".to_string()));
    }
    if property.bathrooms <= 0 {
        return Err(ValuatorError::ValidationError("Bathrooms must be positive".to_string()));
    }
    Ok(())
}

} // verus!
