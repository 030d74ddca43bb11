//! Laws that relate calls of the calculators to one another.

use vstd::prelude::*;
use crate::error::ValuatorError;
use crate::models::{Property, RiskAssessment, Valuation};
use crate::risk::{risk_result_view, RiskAssessor};
use crate::validation::{is_valid_property, validate_property};
use crate::valuation::{valuation_result_view, ValuationEngine};

verus! {

/// Valuing one property twice gives identical results.
pub proof fn lemma_valuation_idempotent(
    engine: &ValuationEngine,
    property: &Property,
    first: Result<Valuation, ValuatorError>,
    second: Result<Valuation, ValuatorError>,
)
    requires
        call_ensures(ValuationEngine::calculate_valuation, (engine, property), first),
        call_ensures(ValuationEngine::calculate_valuation, (engine, property), second),
    ensures
        valuation_result_view(first) == valuation_result_view(second),
{
}

/// Assessing the risk of one property twice gives identical results.
pub proof fn lemma_risk_idempotent(
    assessor: &RiskAssessor,
    property: &Property,
    first: Result<RiskAssessment, ValuatorError>,
    second: Result<RiskAssessment, ValuatorError>,
)
    requires
        call_ensures(RiskAssessor::assess_risk, (assessor, property), first),
        call_ensures(RiskAssessor::assess_risk, (assessor, property), second),
    ensures
        risk_result_view(first) == risk_result_view(second),
{
}

/// On an invalid property, valuation and risk assessment both fail with the
/// very error that the validator gives.
pub proof fn lemma_invalid_input_propagates(
    engine: &ValuationEngine,
    assessor: &RiskAssessor,
    property: &Property,
    checked: Result<(), ValuatorError>,
    valued: Result<Valuation, ValuatorError>,
    assessed: Result<RiskAssessment, ValuatorError>,
)
    requires
        !is_valid_property(property@),
        call_ensures(validate_property, (property,), checked),
        call_ensures(ValuationEngine::calculate_valuation, (engine, property), valued),
        call_ensures(RiskAssessor::assess_risk, (assessor, property), assessed),
    ensures
        checked is Err,
        valued is Err,
        assessed is Err,
        valued->Err_0@ == checked->Err_0@,
        assessed->Err_0@ == checked->Err_0@,
{
}

} // verus!
