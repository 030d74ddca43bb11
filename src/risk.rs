//! The risk calculator: rule-based scoring and classification of a property.

use vstd::prelude::*;
use crate::error::{ValuatorError, ValuatorErrorView};
use crate::models::{Property, PropertyView, RiskAssessment, RiskAssessmentView, RiskLevel};
use crate::validation::{is_valid_property, validate_property, validation_error};

verus! {

/// Floor area above which a property counts as large: 5000 square feet, in hundredths.
pub const LARGE_PROPERTY_SQUARE_FEET: i64 = 500_000;

/// Bedroom count above which a property counts as having many bedrooms.
pub const HIGH_BEDROOM_COUNT: u32 = 5;

/// Score added by the large-property rule: 0.2, in hundredths.
pub const LARGE_PROPERTY_SCORE: u32 = 20;

/// Score added by the bedroom rule: 0.1, in hundredths.
pub const HIGH_BEDROOM_SCORE: u32 = 10;

/// Lowest score classified Medium: 0.3, in hundredths.
pub const MEDIUM_RISK_THRESHOLD: u32 = 30;

/// Lowest score classified High: 0.6, in hundredths.
pub const HIGH_RISK_THRESHOLD: u32 = 60;

/// The large-property rule fires.
pub open spec fn is_large_property(p: PropertyView) -> bool {
    p.square_feet > LARGE_PROPERTY_SQUARE_FEET
}

/// The bedroom rule fires.
pub open spec fn has_many_bedrooms(p: PropertyView) -> bool {
    p.bedrooms > HIGH_BEDROOM_COUNT
}

/// The sum of the scores of the rules that fire, in hundredths.
pub open spec fn risk_score_of(p: PropertyView) -> nat {
    (if is_large_property(p) { LARGE_PROPERTY_SCORE as nat } else { 0 })
        + (if has_many_bedrooms(p) { HIGH_BEDROOM_SCORE as nat } else { 0 })
}

/// The class of a score: below 0.3 Low, from 0.3 below 0.6 Medium, else High.
pub open spec fn risk_level_of(score: nat) -> RiskLevel {
    if score < MEDIUM_RISK_THRESHOLD {
        RiskLevel::Low
    } else if score < HIGH_RISK_THRESHOLD {
        RiskLevel::Medium
    } else {
        RiskLevel::High
    }
}

/// The names of the rules that fire, in rule order; the standard-profile
/// entry alone when none does.
pub open spec fn risk_factors_of(p: PropertyView) -> Seq<Seq<char>> {
    let fired = (if is_large_property(p) { seq!["Large property size"@] } else { seq![] })
        + (if has_many_bedrooms(p) { seq!["High bedroom count"@] } else { seq![] });
    if fired.len() == 0 {
        seq!["Standard property profile"@]
    } else {
        fired
    }
}

/// The assessment of a valid property.
pub open spec fn risk_assessment_of(p: PropertyView) -> RiskAssessmentView {
    RiskAssessmentView {
        property_id: p.id,
        risk_score: risk_score_of(p),
        risk_level: risk_level_of(risk_score_of(p)),
        factors: risk_factors_of(p),
    }
}

/// What assessing `p` gives: its assessment when valid, else the validator's error.
pub open spec fn risk_result_of(p: PropertyView) -> Result<RiskAssessmentView, ValuatorErrorView> {
    if is_valid_property(p) {
        Ok(risk_assessment_of(p))
    } else {
        Err(validation_error(p))
    }
}

/// The mathematical value of what [`RiskAssessor::assess_risk`] returns.
pub open spec fn risk_result_view(r: Result<RiskAssessment, ValuatorError>) -> Result<
    RiskAssessmentView,
    ValuatorErrorView,
> {
    match r {
        Ok(a) => Ok(a@),
        Err(e) => Err(e@),
    }
}

/// Assesses the risk of properties. It holds no state.
pub struct RiskAssessor;

impl RiskAssessor {
    /// Makes an assessor.
    pub fn new() -> (r: Self)
        ensures
            r == (RiskAssessor {}),
    {
        RiskAssessor
    }

    /// Scores the property by its rules and classifies the score, after
    /// validating it; an invalid property gives the validator's error.
    pub fn assess_risk(&self, property: &Property) -> (r: Result<RiskAssessment, ValuatorError>)
        ensures
            risk_result_view(r) == risk_result_of(property@),
    {
        match validate_property(property) {
            Ok(()) => {},
            Err(e) => {
                return Err(e);
            },
        }
        let mut risk_score: u32 = 0;
        let mut factors: Vec<String> = Vec::new();
        if property.square_feet > LARGE_PROPERTY_SQUARE_FEET {
            risk_score = risk_score + LARGE_PROPERTY_SCORE;
            factors.push("Large property size".to_string());
        }
        if property.bedrooms > HIGH_BEDROOM_COUNT {
            risk_score = risk_score + HIGH_BEDROOM_SCORE;
            factors.push("High bedroom count".to_string());
        }
        let risk_level = if risk_score < MEDIUM_RISK_THRESHOLD {
            RiskLevel::Low
        } else if risk_score < HIGH_RISK_THRESHOLD {
            RiskLevel::Medium
        } else {
            RiskLevel::High
        };
        if factors.len() == 0 {
            factors.push("Standard property profile".to_string());
        }
        let r = RiskAssessment {
            property_id: property.id.clone(),
            risk_score,
            risk_level,
            factors,
        };
        assert(r@.factors =~= risk_factors_of(property@));
        Ok(r)
    }
}

impl Default for RiskAssessor {
    fn default() -> (r: Self)
        ensures
            r == (RiskAssessor {}),
    {
        RiskAssessor::new()
    }
}

} // verus!
