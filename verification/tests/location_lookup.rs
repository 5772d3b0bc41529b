use meteobar::{location_lookup, matches_ip_marker, LocationLookup};

fn name_of(lookup: LocationLookup) -> Option<String> {
    match lookup {
        LocationLookup::ByName(name) => Some(name),
        _ => None,
    }
}

#[test]
fn coordinates_win_over_a_location() {
    assert!(matches!(location_lookup(true, Some("Berlin")), LocationLookup::Coordinates));
    assert!(matches!(location_lookup(true, None), LocationLookup::Coordinates));
}

#[test]
fn no_blank_or_auto_location_means_ip_lookup() {
    assert!(matches!(location_lookup(false, None), LocationLookup::ByIp));
    assert!(matches!(location_lookup(false, Some("")), LocationLookup::ByIp));
    assert!(matches!(location_lookup(false, Some(" \t\n")), LocationLookup::ByIp));
    assert!(matches!(location_lookup(false, Some("auto")), LocationLookup::ByIp));
    assert!(matches!(location_lookup(false, Some("  AuTo ")), LocationLookup::ByIp));
    assert!(matches!(location_lookup(false, Some("\u{3000}AUTO\u{a0}")), LocationLookup::ByIp));
}

#[test]
fn other_locations_are_geocoded_without_surrounding_space() {
    assert_eq!(name_of(location_lookup(false, Some("  Berlin \n"))), Some("Berlin".to_string()));
    assert_eq!(
        name_of(location_lookup(false, Some("Halifax, Nova Scotia"))),
        Some("Halifax, Nova Scotia".to_string())
    );
    assert_eq!(name_of(location_lookup(false, Some("autobahn"))), Some("autobahn".to_string()));
    assert_eq!(name_of(location_lookup(false, Some(" a uto"))), Some("a uto".to_string()));
}

#[test]
fn the_auto_marker_ignores_ascii_case_only() {
    assert!(matches_ip_marker("auto"));
    assert!(matches_ip_marker("AUTO"));
    assert!(matches_ip_marker("aUtO"));
    assert!(!matches_ip_marker("aut"));
    assert!(!matches_ip_marker("autos"));
    assert!(!matches_ip_marker(" auto"));
    assert!(!matches_ip_marker("äuto"));
    assert!(!matches_ip_marker(""));
}
