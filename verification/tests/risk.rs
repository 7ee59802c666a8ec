use kicad_gateway::risk::RiskLevel;

#[test]
fn risk_levels_order_from_low_to_critical() {
    assert!(RiskLevel::Low < RiskLevel::Normal);
    assert!(RiskLevel::Normal < RiskLevel::High);
    assert!(RiskLevel::High < RiskLevel::Critical);
}

#[test]
fn parses_known_risk_level_names() {
    assert_eq!(RiskLevel::parse("low"), Some(RiskLevel::Low));
    assert_eq!(RiskLevel::parse("critical"), Some(RiskLevel::Critical));
}

#[test]
fn unknown_risk_level_name_does_not_parse() {
    assert_eq!(RiskLevel::parse("catastrophic"), None);
}

#[test]
fn risk_names_are_lower_case_only() {
    assert_eq!(RiskLevel::parse("normal"), Some(RiskLevel::Normal));
    assert_eq!(RiskLevel::parse("high"), Some(RiskLevel::High));
    assert_eq!(RiskLevel::parse("Low"), None);
    assert_eq!(RiskLevel::parse(""), None);
}

#[test]
fn rank_follows_the_order() {
    assert!(RiskLevel::Low.rank() < RiskLevel::Normal.rank());
    assert!(RiskLevel::Normal.rank() < RiskLevel::High.rank());
    assert!(RiskLevel::High.rank() < RiskLevel::Critical.rank());
}
