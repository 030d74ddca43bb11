//! The market analyzer: regional market context, currently fixed figures for
//! every region.

use vstd::prelude::*;
use crate::error::{ValuatorError, ValuatorErrorView};
use crate::models::{MarketData, MarketDataView, MarketTrend};

verus! {

/// Median price reported for every region, in cents (425 000).
pub const MEDIAN_PRICE: u64 = 42_500_000;

/// Average price per square foot reported for every region, in cents (210).
pub const AVERAGE_PRICE_PER_SQFT: u64 = 21_000;

/// The error for an empty region name.
pub open spec fn empty_region_error() -> ValuatorErrorView {
    ValuatorErrorView::ValidationError("Region cannot be empty"@)
}

/// The market data reported for a region.
pub open spec fn market_data_of(region: Seq<char>) -> MarketDataView {
    MarketDataView {
        region,
        median_price: MEDIAN_PRICE as nat,
        average_price_per_sqft: AVERAGE_PRICE_PER_SQFT as nat,
        market_trend: MarketTrend::Rising,
    }
}

/// What analysing `region` gives: its data, or an error when it is empty.
pub open spec fn market_result_of(region: Seq<char>) -> Result<MarketDataView, ValuatorErrorView> {
    if region.len() == 0 {
        Err(empty_region_error())
    } else {
        Ok(market_data_of(region))
    }
}

/// The mathematical value of what [`MarketAnalyzer::analyze_market`] returns.
pub open spec fn market_result_view(r: Result<MarketData, ValuatorError>) -> Result<
    MarketDataView,
    ValuatorErrorView,
> {
    match r {
        Ok(d) => Ok(d@),
        Err(e) => Err(e@),
    }
}

/// Reports market context for regions. It holds no state.
pub struct MarketAnalyzer;

impl MarketAnalyzer {
    /// Makes an analyzer.
    pub fn new() -> (r: Self)
        ensures
            r == (MarketAnalyzer {}),
    {
        MarketAnalyzer
    }

    /// The market data of a non-empty region, with the region echoed back.
    pub fn analyze_market(&self, region: &str) -> (r: Result<MarketData, ValuatorError>)
        ensures
            market_result_view(r) == market_result_of(region@),
    {
        if region.is_empty() {
            return Err(ValuatorError::ValidationError("Region cannot be empty".to_string()));
        }
        Ok(
            MarketData {
                region: region.to_string(),
                median_price: MEDIAN_PRICE,
                average_price_per_sqft: AVERAGE_PRICE_PER_SQFT,
                market_trend: MarketTrend::Rising,
            },
        )
    }

    /// The trend of a region's market, with the same failure as
    /// [`MarketAnalyzer::analyze_market`].
    pub fn get_trend(&self, region: &str) -> (r: Result<MarketTrend, ValuatorError>)
        ensures
            match (r, market_result_of(region@)) {
                (Ok(t), Ok(d)) => t == d.market_trend,
                (Err(e), Err(f)) => e@ == f,
                _ => false,
            },
    {
        match self.analyze_market(region) {
            Ok(market_data) => Ok(market_data.market_trend),
            Err(e) => Err(e),
        }
    }
}

impl Default for MarketAnalyzer {
    fn default() -> (r: Self)
        ensures
            r == (MarketAnalyzer {}),
    {
        MarketAnalyzer::new()
    }
}

} // verus!
