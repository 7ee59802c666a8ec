use kicad_gateway::capability::{Capability, CapabilityProfile, CapabilitySet};

#[test]
fn inspect_profile_is_read_and_validation_only() {
    let caps = CapabilityProfile::Inspect.effective_capabilities();
    assert!(caps.contains(&Capability::SCHEMATIC_READ));
    assert!(caps.contains(&Capability::ERC_RUN));
    assert!(!caps.contains(&Capability::SCHEMATIC_WRITE));
    assert!(!caps.contains(&Capability::MANUFACTURING_EXPORT));
}

#[test]
fn design_profile_is_superset_of_inspect_and_excludes_manufacturing() {
    let inspect = CapabilityProfile::Inspect.effective_capabilities();
    let design = CapabilityProfile::Design.effective_capabilities();
    assert!(inspect.is_subset(&design));
    assert!(design.contains(&Capability::SCHEMATIC_WRITE));
    assert!(!design.contains(&Capability::MANUFACTURING_EXPORT));
}

#[test]
fn manufacturing_profile_includes_export() {
    let caps = CapabilityProfile::Manufacturing.effective_capabilities();
    assert!(caps.contains(&Capability::MANUFACTURING_EXPORT));
    assert!(caps.contains(&Capability::SCHEMATIC_WRITE));
}

#[test]
fn custom_profile_is_exactly_the_given_set() {
    let mut set = CapabilitySet::new();
    set.insert(Capability::PROJECT_READ);
    let profile = CapabilityProfile::Custom(set.clone());
    assert_eq!(profile.effective_capabilities(), set);
}

#[test]
fn unknown_capability_string_does_not_parse() {
    assert_eq!(Capability::parse("shell.exec"), None);
    assert_eq!(Capability::parse("schematic.delete_everything"), None);
}

#[test]
fn every_capability_name_round_trips_through_parse() {
    for capability in Capability::all() {
        assert_eq!(Capability::parse(capability.as_str()), Some(capability));
        assert_eq!(capability.to_string(), capability.as_str());
    }
    assert_eq!(Capability::SCHEMATIC_WRITE.as_str(), "schematic.write");
    assert_eq!(Capability::MANUFACTURING_EXPORT.as_str(), "manufacturing.export");
    assert_eq!(Capability::all().len(), 12);
}

#[test]
fn profiles_are_nested_inspect_design_manufacturing() {
    let inspect = CapabilityProfile::Inspect.effective_capabilities();
    let design = CapabilityProfile::Design.effective_capabilities();
    let manufacturing = CapabilityProfile::Manufacturing.effective_capabilities();
    assert!(inspect.is_subset(&design));
    assert!(design.is_subset(&manufacturing));
    assert!(!manufacturing.is_subset(&design));
    assert!(!design.is_subset(&inspect));
}

#[test]
fn capability_set_insert_reports_whether_it_was_new() {
    let mut set = CapabilitySet::new();
    assert!(set.is_empty());
    assert!(set.insert(Capability::PCB_READ));
    assert!(!set.insert(Capability::PCB_READ));
    assert!(!set.is_empty());
    let from_slice = CapabilitySet::from_slice(&[Capability::PCB_READ, Capability::PCB_READ]);
    assert_eq!(from_slice, set);
}

#[test]
fn first_missing_capability_is_reported() {
    let inspect = CapabilityProfile::Inspect.effective_capabilities();
    let mut wider = inspect.clone();
    wider.insert(Capability::MANUFACTURING_EXPORT);
    assert_eq!(wider.first_missing_from(&inspect), Some(Capability::MANUFACTURING_EXPORT));
    assert_eq!(inspect.first_missing_from(&wider), None);
}

#[test]
fn capability_names_are_distinct_and_parse_back() {
    let all = Capability::all();
    for a in &all {
        assert_eq!(Capability::parse(a.as_str()), Some(*a));
        for b in &all {
            assert_eq!(a.as_str() == b.as_str(), a == b);
        }
    }
    assert_eq!(Capability::parse("Schematic.Write"), None);
    assert_eq!(Capability::SCHEMATIC_WRITE.as_str(), "schematic.write");
}
