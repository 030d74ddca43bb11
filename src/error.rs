//! The library's error kinds.

use vstd::prelude::*;
use vstd::string::StringExecFns;

verus! {

/// What went wrong in a valuator operation; each kind carries a message.
#[derive(Clone, Debug)]
pub enum ValuatorError {
    InvalidProperty(String),
    ValuationFailed(String),
    MarketDataUnavailable(String),
    RiskAssessmentError(String),
    ValidationError(String),
    Internal(String),
}

/// The mathematical value of a [`ValuatorError`]: its kind and its message.
pub enum ValuatorErrorView {
    InvalidProperty(Seq<char>),
    ValuationFailed(Seq<char>),
    MarketDataUnavailable(Seq<char>),
    RiskAssessmentError(Seq<char>),
    ValidationError(Seq<char>),
    Internal(Seq<char>),
}

impl View for ValuatorError {
    type V = ValuatorErrorView;

    open spec fn view(&self) -> ValuatorErrorView {
        match self {
            ValuatorError::InvalidProperty(m) => ValuatorErrorView::InvalidProperty(m@),
            ValuatorError::ValuationFailed(m) => ValuatorErrorView::ValuationFailed(m@),
            ValuatorError::MarketDataUnavailable(m) => ValuatorErrorView::MarketDataUnavailable(m@),
            ValuatorError::RiskAssessmentError(m) => ValuatorErrorView::RiskAssessmentError(m@),
            ValuatorError::ValidationError(m) => ValuatorErrorView::ValidationError(m@),
            ValuatorError::Internal(m) => ValuatorErrorView::Internal(m@),
        }
    }
}

/// The text that describes an error: a prefix naming its kind, then its message.
pub open spec fn error_text(e: ValuatorErrorView) -> Seq<char> {
    match e {
        ValuatorErrorView::InvalidProperty(m) => "Invalid property data: "@ + m,
        ValuatorErrorView::ValuationFailed(m) => "Valuation calculation failed: "@ + m,
        ValuatorErrorView::MarketDataUnavailable(m) => "Market data unavailable: "@ + m,
        ValuatorErrorView::RiskAssessmentError(m) => "Risk assessment error: "@ + m,
        ValuatorErrorView::ValidationError(m) => "Data validation error: "@ + m,
        ValuatorErrorView::Internal(m) => "Internal error: "@ + m,
    }
}

impl ValuatorError {
    /// The error described in words, as [`error_text`] gives it.
    pub fn to_string(&self) -> (r: String)
        ensures
            r@ == error_text(self@),
    {
        match self {
            ValuatorError::InvalidProperty(m) => {
                String::from_str("Invalid property data: ").concat(m.as_str())
            },
            ValuatorError::ValuationFailed(m) => {
                String::from_str("Valuation calculation failed: ").concat(m.as_str())
            },
            ValuatorError::MarketDataUnavailable(m) => {
                String::from_str("Market data unavailable: ").concat(m.as_str())
            },
            ValuatorError::RiskAssessmentError(m) => {
                String::from_str("Risk assessment error: ").concat(m.as_str())
            },
            ValuatorError::ValidationError(m) => {
                String::from_str("Data validation error: ").concat(m.as_str())
            },
            ValuatorError::Internal(m) => String::from_str("Internal error: ").concat(m.as_str()),
        }
    }
}

} // verus!
