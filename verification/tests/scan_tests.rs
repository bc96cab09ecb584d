use rower_bridge::errors::DiscoveryError;
use rower_bridge::scan::contains_substring;
use rower_bridge::scan::filter_performance_monitors;
use rower_bridge::scan::is_performance_monitor_name;
use rower_bridge::scan::monitor_marker;
use rower_bridge::scan::require_adapters;

#[test]
fn marker_is_pm() {
    assert_eq!(monitor_marker(), "PM");
}

#[test]
fn substring_search() {
    assert!(contains_substring("Rower PM5 123", "PM"));
    assert!(contains_substring("PM", "PM"));
    assert!(contains_substring("xPM", "PM"));
    assert!(contains_substring("anything", ""));
    assert!(!contains_substring("", "PM"));
    assert!(!contains_substring("pm5-nope", "PM"));
    assert!(!contains_substring("P M", "PM"));
}

#[test]
fn filter_is_case_sensitive_and_keeps_scan_order() {
    let names = vec![
        "Rower PM5 123".to_string(),
        "Other Device".to_string(),
        "pm5-nope".to_string(),
    ];
    assert_eq!(filter_performance_monitors(&names), Ok(vec![0]));
    assert!(is_performance_monitor_name("Rower PM5 123"));
    assert!(!is_performance_monitor_name("Other Device"));
    assert!(!is_performance_monitor_name("pm5-nope"));
}

#[test]
fn filter_keeps_every_match() {
    let names = vec![
        "PM5 A".to_string(),
        "headphones".to_string(),
        "Some(\"PM5 B\")".to_string(),
    ];
    assert_eq!(filter_performance_monitors(&names), Ok(vec![0, 2]));
}

#[test]
fn empty_filtered_set_is_no_peripheral_found() {
    let none_match = vec!["Other Device".to_string(), "pm5-nope".to_string()];
    assert_eq!(
        filter_performance_monitors(&none_match),
        Err(DiscoveryError::NoPeripheralFound)
    );
    let empty: Vec<String> = Vec::new();
    assert_eq!(
        filter_performance_monitors(&empty),
        Err(DiscoveryError::NoPeripheralFound)
    );
}

#[test]
fn zero_adapters_is_no_adapter_found() {
    assert_eq!(require_adapters(0), Err(DiscoveryError::NoAdapterFound));
    assert_eq!(require_adapters(1), Ok(()));
    assert_eq!(require_adapters(3), Ok(()));
}
