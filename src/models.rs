//! The domain model: properties and what the calculators produce for them.

use vstd::prelude::*;

verus! {

/// A real-estate unit under evaluation.
///
/// `square_feet` and `bathrooms` are in hundredths: `250_050` square feet
/// stands for 2500.50, and `250` bathrooms for two and a half.
#[derive(Clone, Debug)]
pub struct Property {
    pub id: String,
    pub address: String,
    pub square_feet: i64,
    pub bedrooms: u32,
    pub bathrooms: i64,
}

/// The mathematical value of a [`Property`].
pub struct PropertyView {
    pub id: Seq<char>,
    pub address: Seq<char>,
    pub square_feet: int,
    pub bedrooms: nat,
    pub bathrooms: int,
}

impl View for Property {
    type V = PropertyView;

    open spec fn view(&self) -> PropertyView {
        PropertyView {
            id: self.id@,
            address: self.address@,
            square_feet: self.square_feet as int,
            bedrooms: self.bedrooms as nat,
            bathrooms: self.bathrooms as int,
        }
    }
}

/// The priced estimate of one property.
///
/// `estimated_value` is in cents; `confidence_level` is in hundredths, within
/// `1..=100`.
#[derive(Clone, Debug)]
pub struct Valuation {
    pub property_id: String,
    pub estimated_value: u128,
    pub confidence_level: u32,
    pub methodology: String,
}

/// The mathematical value of a [`Valuation`].
pub struct ValuationView {
    pub property_id: Seq<char>,
    pub estimated_value: nat,
    pub confidence_level: nat,
    pub methodology: Seq<char>,
}

impl View for Valuation {
    type V = ValuationView;

    open spec fn view(&self) -> ValuationView {
        ValuationView {
            property_id: self.property_id@,
            estimated_value: self.estimated_value as nat,
            confidence_level: self.confidence_level as nat,
            methodology: self.methodology@,
        }
    }
}

/// Market context for a named region.
///
/// `median_price` and `average_price_per_sqft` are in cents.
#[derive(Clone, Debug)]
pub struct MarketData {
    pub region: String,
    pub median_price: u64,
    pub average_price_per_sqft: u64,
    pub market_trend: MarketTrend,
}

/// The mathematical value of a [`MarketData`].
pub struct MarketDataView {
    pub region: Seq<char>,
    pub median_price: nat,
    pub average_price_per_sqft: nat,
    pub market_trend: MarketTrend,
}

impl View for MarketData {
    type V = MarketDataView;

    open spec fn view(&self) -> MarketDataView {
        MarketDataView {
            region: self.region@,
            median_price: self.median_price as nat,
            average_price_per_sqft: self.average_price_per_sqft as nat,
            market_trend: self.market_trend,
        }
    }
}

/// Where prices in a market are heading.
#[derive(Clone, Copy, Debug, PartialEq, Eq, Structural)]
pub enum MarketTrend {
    Rising,
    Stable,
    Declining,
}

/// The risk classification of one property.
///
/// `risk_score` is in hundredths; `factors` names, in the order the rules
/// were applied, each rule that fired.
#[derive(Clone, Debug)]
pub struct RiskAssessment {
    pub property_id: String,
    pub risk_score: u32,
    pub risk_level: RiskLevel,
    pub factors: Vec<String>,
}

/// The mathematical value of a [`RiskAssessment`].
pub struct RiskAssessmentView {
    pub property_id: Seq<char>,
    pub risk_score: nat,
    pub risk_level: RiskLevel,
    pub factors: Seq<Seq<char>>,
}

impl View for RiskAssessment {
    type V = RiskAssessmentView;

    open spec fn view(&self) -> RiskAssessmentView {
        RiskAssessmentView {
            property_id: self.property_id@,
            risk_score: self.risk_score as nat,
            risk_level: self.risk_level,
            factors: self.factors@.map_values(|f: String| f@),
        }
    }
}

/// Risk classes, from least to most risky.
#[derive(Clone, Copy, Debug, PartialEq, Eq, Structural)]
pub enum RiskLevel {
    Low,
    Medium,
    High,
}

} // verus!
