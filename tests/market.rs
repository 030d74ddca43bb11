use valuator::{MarketAnalyzer, MarketTrend, ValuatorError};

#[test]
fn test_market_analyzer() {
    let analyzer = MarketAnalyzer::new();
    let result = analyzer.analyze_market("Downtown");
    assert!(result.is_ok());

    let market_data = result.unwrap();
    assert_eq!(market_data.region, "Downtown");
    assert!(market_data.median_price > 0);
}

#[test]
fn test_empty_region() {
    let analyzer = MarketAnalyzer::new();
    let result = analyzer.analyze_market("");
    assert!(result.is_err());
}

#[test]
fn test_get_trend() {
    let analyzer = MarketAnalyzer::new();
    let result = analyzer.get_trend("Suburbs");
    assert!(result.is_ok());
}

#[test]
fn market_data_is_fixed_for_every_region() {
    let d = MarketAnalyzer::new().analyze_market("Downtown").unwrap();
    assert_eq!(d.region, "Downtown");
    assert_eq!(d.median_price, 42_500_000);
    assert_eq!(d.average_price_per_sqft, 21_000);
    assert_eq!(d.market_trend, MarketTrend::Rising);
    let e = MarketAnalyzer::default().analyze_market("Lakeside Heights").unwrap();
    assert_eq!(e.region, "Lakeside Heights");
    assert_eq!(e.median_price, 42_500_000);
}

#[test]
fn empty_region_is_a_validation_error() {
    match MarketAnalyzer::new().analyze_market("") {
        Err(ValuatorError::ValidationError(m)) => assert_eq!(m, "Region cannot be empty"),
        other => panic!("unexpected result {:?}", other),
    }
    match MarketAnalyzer::new().get_trend("") {
        Err(ValuatorError::ValidationError(m)) => assert_eq!(m, "Region cannot be empty"),
        other => panic!("unexpected result {:?}", other),
    }
}

#[test]
fn trend_of_suburbs_is_rising() {
    assert_eq!(MarketAnalyzer::new().get_trend("Suburbs").unwrap(), MarketTrend::Rising);
}
