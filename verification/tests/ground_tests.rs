use siege_tower_backend::ground::GroundAnalyzer;
use siege_tower_backend::models::SoilType;

#[test]
fn ground_analyzer_new() {
    let g = GroundAnalyzer::new();
    assert_eq!(g.max_allowed_settlement(SoilType::Loam), 75);
}

#[test]
fn settlement_limits_per_soil() {
    let g = GroundAnalyzer::new();
    assert_eq!(g.max_allowed_settlement(SoilType::Rock), 10);
    assert_eq!(g.max_allowed_settlement(SoilType::Sand), 50);
    assert_eq!(g.max_allowed_settlement(SoilType::Loam), 75);
    assert_eq!(g.max_allowed_settlement(SoilType::Silt), 100);
    assert_eq!(g.max_allowed_settlement(SoilType::Clay), 150);
}

#[test]
fn softer_soils_tolerate_more_settlement() {
    let g = GroundAnalyzer::new();
    let order = [SoilType::Rock, SoilType::Sand, SoilType::Loam, SoilType::Silt, SoilType::Clay];
    for w in order.windows(2) {
        assert!(g.max_allowed_settlement(w[0]) < g.max_allowed_settlement(w[1]));
    }
}

#[test]
fn soil_names() {
    assert_eq!(SoilType::Rock.as_str(), "rock");
    assert_eq!(SoilType::Sand.as_str(), "sand");
    assert_eq!(SoilType::Loam.as_str(), "loam");
    assert_eq!(SoilType::Silt.as_str(), "silt");
    assert_eq!(SoilType::Clay.as_str(), "clay");
}
