//! Property valuation core: the domain model, the property validator, and the
//! valuation, risk and market calculators built on it.
//!
//! Every fractional quantity is a fixed-point integer with two decimal places
//! (hundredths), and every money amount is in cents, so that all arithmetic is
//! exact.

pub mod error;
pub mod laws;
pub mod market;
pub mod models;
pub mod risk;
pub mod validation;
pub mod valuation;

pub use error::{ValuatorError, ValuatorErrorView};
pub use market::MarketAnalyzer;
pub use models::{
    MarketData, MarketDataView, MarketTrend, Property, PropertyView, RiskAssessment,
    RiskAssessmentView, RiskLevel, Valuation, ValuationView,
};
pub use risk::RiskAssessor;
pub use validation::validate_property;
pub use valuation::ValuationEngine;
