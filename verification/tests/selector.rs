use webcam_sharedtexture_core::capture::DeviceInfo;
use webcam_sharedtexture_core::selector::{
    device_line, format_devices, tier_hit, DeviceId, DeviceSelector, SelectError,
};

fn device(index: u32, name: &str, id: Option<&str>) -> DeviceInfo {
    DeviceInfo { index, name: name.to_string(), id: id.and_then(DeviceId::new) }
}

#[test]
fn device_id_rejects_empty() {
    assert_eq!(DeviceId::new(""), None);
    assert_eq!(DeviceId::new("   "), None);
}

#[test]
fn device_id_keeps_value() {
    let id = DeviceId::new("uuid-1").expect("non-empty id");

    assert_eq!(id.as_str(), "uuid-1");
}

#[test]
fn resolve_index_in_range() {
    let devices = vec![device(0, "Cam A", None), device(1, "Cam B", None)];

    let resolved = DeviceSelector::Index(1).resolve(&devices).expect("index 1 exists");

    assert_eq!(resolved.name, "Cam B");
}

#[test]
fn resolve_index_out_of_range() {
    let devices = vec![device(0, "Cam A", Some("id-a")), device(1, "Cam B", Some("id-b"))];

    let error = DeviceSelector::Index(5).resolve(&devices).expect_err("index 5 missing");

    assert!(matches!(error, SelectError::IndexOutOfRange { index: 5, .. }));
    let message = error.message();
    assert!(message.contains("Cam A"));
    assert!(message.contains("Cam B"));
    assert!(message.contains("id-a"));
    assert!(message.contains("id-b"));
}

#[test]
fn resolve_id_exact_match() {
    let devices = vec![device(0, "Cam A", Some("id-a")), device(1, "Cam B", Some("id-b"))];
    let selector = DeviceSelector::Id(DeviceId::new("id-b").expect("non-empty"));

    let resolved = selector.resolve(&devices).expect("id-b exists");

    assert_eq!(resolved.name, "Cam B");
}

#[test]
fn resolve_id_missing_is_no_match() {
    let devices = vec![device(0, "Cam A", Some("id-a"))];
    let selector = DeviceSelector::Id(DeviceId::new("id-missing").expect("non-empty"));

    let error = selector.resolve(&devices).expect_err("id-missing absent");

    assert!(matches!(error, SelectError::NoMatch { .. }));
}

#[test]
fn query_exact_name_case_insensitive() {
    let devices = vec![device(0, "Cam A", None)];

    let resolved =
        DeviceSelector::Query("cam a".to_string()).resolve(&devices).expect("case-insensitive");

    assert_eq!(resolved.name, "Cam A");
}

#[test]
fn query_exact_name_beats_prefix() {
    let devices = vec![device(0, "Cam", None), device(1, "Camera 2", None)];

    let resolved =
        DeviceSelector::Query("Cam".to_string()).resolve(&devices).expect("exact name wins");

    assert_eq!(resolved.name, "Cam");
}

#[test]
fn query_duplicate_names_ambiguous() {
    let devices =
        vec![device(0, "USB Camera", Some("id-a")), device(1, "USB Camera", Some("id-b"))];

    let error = DeviceSelector::Query("USB Camera".to_string())
        .resolve(&devices)
        .expect_err("duplicate names");

    assert!(matches!(error, SelectError::Ambiguous { .. }));
    let message = error.message();
    assert!(message.contains("id-a"));
    assert!(message.contains("id-b"));
}

#[test]
fn query_exact_id_after_name() {
    let devices = vec![device(0, "Cam A", Some("7626645E-1E13-4E6F-8B77-71B2A5B5F1C7"))];

    let resolved = DeviceSelector::Query("7626645E-1E13-4E6F-8B77-71B2A5B5F1C7".to_string())
        .resolve(&devices)
        .expect("uuid matches");
    let resolved_lower = DeviceSelector::Query("7626645e-1e13-4e6f-8b77-71b2a5b5f1c7".to_string())
        .resolve(&devices)
        .expect("lowercased uuid matches");

    assert_eq!(resolved.name, "Cam A");
    assert_eq!(resolved_lower.name, "Cam A");
}

#[test]
fn query_unique_prefix_matches() {
    let devices = vec![device(0, "Logitech C920", None), device(1, "OBS Virtual Camera", None)];

    let resolved =
        DeviceSelector::Query("Logi".to_string()).resolve(&devices).expect("unique prefix");

    assert_eq!(resolved.name, "Logitech C920");
}

#[test]
fn query_prefix_ambiguous() {
    let devices = vec![device(0, "Cam Front", None), device(1, "Cam Back", None)];

    let error =
        DeviceSelector::Query("Cam".to_string()).resolve(&devices).expect_err("ambiguous prefix");

    assert!(matches!(error, SelectError::Ambiguous { .. }));
}

#[test]
fn query_unique_substring_matches() {
    let devices = vec![device(0, "OBS Virtual Camera", None), device(1, "Logitech C920", None)];

    let resolved =
        DeviceSelector::Query("obs".to_string()).resolve(&devices).expect("unique substring");

    assert_eq!(resolved.name, "OBS Virtual Camera");
}

#[test]
fn query_substring_ambiguous() {
    let devices = vec![device(0, "Front Camera", None), device(1, "Back Camera", None)];

    let error = DeviceSelector::Query("camera".to_string())
        .resolve(&devices)
        .expect_err("ambiguous substring");

    assert!(matches!(error, SelectError::Ambiguous { .. }));
}

#[test]
fn query_empty_is_no_match() {
    let devices = vec![device(0, "Cam A", Some("id-a"))];

    for query in ["", "   "] {
        let error = DeviceSelector::Query(query.to_string())
            .resolve(&devices)
            .expect_err("empty/whitespace query must not resolve");

        assert!(matches!(error, SelectError::NoMatch { .. }), "query: {query:?}");
        let message = error.message();
        assert!(message.contains("Cam A"), "query: {query:?}");
    }
}

#[test]
fn query_no_match_lists_devices() {
    let devices = vec![device(0, "Cam A", Some("id-a"))];

    let error = DeviceSelector::Query("nonexistent".to_string())
        .resolve(&devices)
        .expect_err("no device matches");

    assert!(matches!(error, SelectError::NoMatch { .. }));
    let message = error.message();
    assert!(message.contains("Cam A"));
    assert!(message.contains("id-a"));
}

#[test]
fn device_line_includes_id() {
    let line = device_line(&device(0, "Cam A", Some("id-a")));

    assert_eq!(line, "0: Cam A  [id-a]");
}

#[test]
fn device_line_omits_missing_id() {
    let line = device_line(&device(2, "Cam C", None));

    assert_eq!(line, "2: Cam C");
}

#[test]
fn format_devices_joins_lines() {
    let devices = vec![device(0, "Cam A", Some("id-a")), device(1, "Cam B", None)];

    let formatted = format_devices(&devices);

    assert_eq!(formatted, "0: Cam A  [id-a]\n1: Cam B");
}

#[test]
fn select_error_messages_have_exact_text() {
    let devices = vec![device(0, "Cam A", Some("id-a"))];
    let out_of_range = DeviceSelector::Index(3).resolve(&devices).expect_err("missing");
    assert_eq!(out_of_range.message(), "device index 3 not found\n0: Cam A  [id-a]");
    let no_match = DeviceSelector::Query("zzz".to_string()).resolve(&devices).expect_err("none");
    assert_eq!(no_match.message(), "no device matches \"zzz\"\n0: Cam A  [id-a]");
}

#[test]
fn ambiguous_error_lists_only_the_matches() {
    let devices = vec![device(0, "Cam Front", None), device(1, "Cam Back", None), device(2, "Other", None)];
    let error = DeviceSelector::Query("Cam".to_string()).resolve(&devices).expect_err("ambiguous");
    assert_eq!(error.message(), "\"Cam\" matches multiple devices\n0: Cam Front\n1: Cam Back");
}

#[test]
fn format_devices_of_no_devices_is_empty() {
    assert_eq!(format_devices(&[]), "");
}

#[test]
fn tier_hit_compares_lowercase_forms_by_tier() {
    assert!(tier_hit(0, "cam a", None, "cam a"));
    assert!(!tier_hit(0, "cam a", None, "cam"));
    assert!(tier_hit(1, "cam", Some("id-a"), "id-a"));
    assert!(!tier_hit(1, "cam", None, "id-a"));
    assert!(tier_hit(2, "logitech c920", None, "logi"));
    assert!(!tier_hit(2, "obs virtual camera", None, "camera"));
    assert!(tier_hit(3, "obs virtual camera", None, "camera"));
    assert!(tier_hit(3, "anything", None, ""));
}
