use webcam_sharedtexture_core::capture::DeviceInfo;
use webcam_sharedtexture_core::gui::{
    bgra_to_rgba, clamp_rect, crop_toggle, exact_scale_from_input, filter_entries, flip_from_segment_index,
    flip_from_toggles, flip_segment_index, menu_action_for, missing_camera_banner, position_of_id,
    no_frame_for_crop_message, passes_lowered_filter, refit_crop, restore_selection,
    no_device_selected_message, publish_button_command, publish_button_label, refit_on_new_input,
    restart_on_change, seed_rect, selection_after_reload, worker_spec_for, CropToggle, WorkerCommand, rotation_from_segment_index, rotation_segment_index,
    tray_action_for, FpsMeter, GuiConfig, LicenseCategory, LicenseEntry, MenuAction, PreviewMode,
    TrayAction, WorkerSpec, WINDOW_NANOS,
};
use webcam_sharedtexture_core::selector::DeviceId;
use webcam_sharedtexture_core::transform::{CropRect, Flip, Rotation, ScaleSize};

const MILLIS: u64 = 1_000_000;

fn device(index: u32, name: &str, id: Option<&str>) -> DeviceInfo {
    DeviceInfo { index, name: name.to_string(), id: id.and_then(DeviceId::new) }
}

#[test]
fn rotation_segment_index_covers_all_four_states_in_0_90_180_270_order() {
    assert_eq!(rotation_segment_index(Rotation::R0), 0);
    assert_eq!(rotation_segment_index(Rotation::R90), 1);
    assert_eq!(rotation_segment_index(Rotation::R180), 2);
    assert_eq!(rotation_segment_index(Rotation::R270), 3);
}

#[test]
fn rotation_from_segment_index_is_the_exact_inverse() {
    assert_eq!(rotation_from_segment_index(0), Rotation::R0);
    assert_eq!(rotation_from_segment_index(1), Rotation::R90);
    assert_eq!(rotation_from_segment_index(2), Rotation::R180);
    assert_eq!(rotation_from_segment_index(3), Rotation::R270);
}

#[test]
fn rotation_index_round_trips_for_every_state() {
    for rotation in [Rotation::R0, Rotation::R90, Rotation::R180, Rotation::R270] {
        let index = rotation_segment_index(rotation);
        assert_eq!(rotation_from_segment_index(index), rotation, "rotation={rotation:?}");
    }
}

#[test]
fn flip_from_toggles_covers_all_four_combinations() {
    let cases = [
        (false, false, Flip::Keep),
        (true, false, Flip::Horizontal),
        (false, true, Flip::Vertical),
        (true, true, Flip::Both),
    ];
    for (h, v, expected) in cases {
        assert_eq!(flip_from_toggles(h, v), expected, "h={h} v={v}");
    }
}

#[test]
fn refit_crop_returns_none_when_the_rect_still_fits() {
    let crop = CropRect { width: 320, height: 240, x: 100, y: 100 };

    assert_eq!(refit_crop(crop, 1920, 1080), None);
}

#[test]
fn refit_crop_returns_the_clamped_rect_when_the_new_frame_is_smaller() {
    let crop = CropRect { width: 960, height: 540, x: 800, y: 400 };

    let refit = refit_crop(crop, 640, 480);

    assert_eq!(refit, Some(clamp_rect(crop, 640, 480)));
    assert_ne!(refit, Some(crop));
}

#[test]
fn clamp_rect_keeps_the_rect_inside_the_frame() {
    let rect = clamp_rect(CropRect { width: 960, height: 540, x: 800, y: 400 }, 640, 480);
    assert!(rect.width >= 1 && rect.height >= 1);
    assert!(rect.x + rect.width <= 640);
    assert!(rect.y + rect.height <= 480);
    let fitting = CropRect { width: 10, height: 10, x: 5, y: 5 };
    assert_eq!(clamp_rect(fitting, 640, 480), fitting);
}

#[test]
fn position_of_id_finds_matching_device() {
    let devices = vec![device(0, "Cam A", Some("id-a")), device(1, "Cam B", Some("id-b"))];

    assert_eq!(position_of_id(&devices, "id-b"), Some(1));
}

#[test]
fn position_of_id_missing_is_none() {
    let devices = vec![device(0, "Cam A", Some("id-a"))];

    assert_eq!(position_of_id(&devices, "id-missing"), None);
}

#[test]
fn position_of_id_ignores_devices_without_an_id() {
    let devices = vec![device(0, "Cam A", None)];

    assert_eq!(position_of_id(&devices, "id-a"), None);
}

#[test]
fn restore_selection_finds_saved_id_in_a_shuffled_list() {
    let config = GuiConfig { device_id: Some("id-b".to_string()), device_name: None };
    let devices = vec![device(0, "Cam A", Some("id-a")), device(1, "Cam B", Some("id-b"))];

    let (position, banner) = restore_selection(&config, &devices);

    assert_eq!(position, 1);
    assert_eq!(banner, None);
}

#[test]
fn restore_selection_missing_device_banners_with_saved_name() {
    let config =
        GuiConfig { device_id: Some("id-gone".to_string()), device_name: Some("Old Cam".to_string()) };
    let devices = vec![device(0, "Cam A", Some("id-a"))];

    let (position, banner) = restore_selection(&config, &devices);

    assert_eq!(position, 0);
    let message = banner.expect("missing device must banner");
    assert!(message.contains("Old Cam"));
    assert!(message.contains("Cam A"));
}

#[test]
fn restore_selection_missing_device_with_no_devices_still_banners() {
    let config =
        GuiConfig { device_id: Some("id-gone".to_string()), device_name: Some("Old Cam".to_string()) };

    let (position, banner) = restore_selection(&config, &[]);

    assert_eq!(position, 0);
    let message = banner.expect("missing device must banner even with no devices present");
    assert!(message.contains("Old Cam"));
}

#[test]
fn restore_selection_empty_config_defaults_to_first_with_no_banner() {
    let config = GuiConfig::default();
    let devices = vec![device(0, "Cam A", Some("id-a"))];

    let (position, banner) = restore_selection(&config, &devices);

    assert_eq!(position, 0);
    assert_eq!(banner, None);
}

#[test]
fn missing_camera_banner_names_the_saved_and_the_present_devices() {
    let banner = missing_camera_banner("Old Cam", &[device(0, "Cam A", None)]);
    assert!(banner.contains("Old Cam"));
    assert!(banner.contains("Cam A"));
}

#[test]
fn rate_counts_samples_within_the_one_second_window() {
    let mut meter = FpsMeter::new();
    let base = 5_000 * MILLIS;
    for i in 0..10u64 {
        meter.record(base + i * 100 * MILLIS);
    }
    assert_eq!(meter.rate(base + 900 * MILLIS), 10);
}

#[test]
fn rate_evicts_samples_older_than_one_second() {
    let mut meter = FpsMeter::new();
    let base = 5_000 * MILLIS;
    meter.record(base);
    meter.record(base + 900 * MILLIS);
    assert_eq!(meter.rate(base + 1500 * MILLIS), 1);
}

#[test]
fn rate_on_empty_meter_is_zero() {
    let mut meter = FpsMeter::new();
    assert_eq!(meter.rate(42), 0);
}

#[test]
fn rate_keeps_a_sample_exactly_one_window_old() {
    let mut meter = FpsMeter::default();
    meter.record(0);
    assert_eq!(meter.rate(WINDOW_NANOS), 1);
    assert_eq!(meter.rate(WINDOW_NANOS + 1), 0);
}

fn sample_entries() -> Vec<LicenseEntry> {
    vec![
        LicenseEntry {
            name: "serde".to_string(),
            version: Some("1.0.210".to_string()),
            license: "MIT OR Apache-2.0".to_string(),
            text: "MIT License text goes here.".to_string(),
            homepage: Some("https://serde.rs".to_string()),
            category: LicenseCategory::Library,
        },
        LicenseEntry {
            name: "LINE Seed JP".to_string(),
            version: None,
            license: "OFL-1.1".to_string(),
            text: "SIL Open Font License text goes here.".to_string(),
            homepage: None,
            category: LicenseCategory::Font,
        },
    ]
}

#[test]
fn filter_entries_matches_name_case_insensitively() {
    let entries = sample_entries();

    let filtered = filter_entries(&entries, "SERDE", None);

    assert_eq!(filtered.len(), 1);
    assert_eq!(filtered[0].name, "serde");
}

#[test]
fn filter_entries_by_category_only() {
    let entries = sample_entries();

    let filtered = filter_entries(&entries, "", Some(LicenseCategory::Font));

    assert_eq!(filtered.len(), 1);
    assert_eq!(filtered[0].name, "LINE Seed JP");
}

#[test]
fn filter_entries_combines_query_and_category_with_and() {
    let entries = sample_entries();

    let filtered = filter_entries(&entries, "serde", Some(LicenseCategory::Font));

    assert!(filtered.is_empty());
}

#[test]
fn filter_entries_with_empty_query_and_no_category_returns_everything() {
    let entries = sample_entries();

    let filtered = filter_entries(&entries, "", None);

    assert_eq!(filtered.len(), entries.len());
}

#[test]
fn filter_entries_matches_inside_the_name() {
    let entries = sample_entries();
    let filtered = filter_entries(&entries, "seed", None);
    assert_eq!(filtered.len(), 1);
    assert_eq!(filtered[0].name, "LINE Seed JP");
}

#[test]
fn bgra_to_rgba_swaps_red_and_blue_channels() {
    let bgra = [10u8, 20, 30, 40, 15, 25, 35, 45];
    assert_eq!(bgra_to_rgba(&bgra), vec![30, 20, 10, 40, 35, 25, 15, 45]);
}

#[test]
fn bgra_to_rgba_empty_input_is_empty() {
    assert_eq!(bgra_to_rgba(&[]), Vec::<u8>::new());
}

#[test]
fn scale_from_input_exact_zero_dims_clamp_to_one() {
    assert_eq!(exact_scale_from_input(0, 0), ScaleSize { width: 1, height: 1 });
}

#[test]
fn scale_from_input_exact_normal_dims_pass_through() {
    assert_eq!(exact_scale_from_input(960, 540), ScaleSize { width: 960, height: 540 });
}

#[test]
fn flip_segment_index_covers_all_four_states_in_none_h_v_hv_order() {
    assert_eq!(flip_segment_index(false, false), 0);
    assert_eq!(flip_segment_index(true, false), 1);
    assert_eq!(flip_segment_index(false, true), 2);
    assert_eq!(flip_segment_index(true, true), 3);
}

#[test]
fn flip_from_segment_index_is_the_exact_inverse() {
    assert_eq!(flip_from_segment_index(0), (false, false));
    assert_eq!(flip_from_segment_index(1), (true, false));
    assert_eq!(flip_from_segment_index(2), (false, true));
    assert_eq!(flip_from_segment_index(3), (true, true));
}

#[test]
fn flip_index_round_trips_for_every_state() {
    for (h, v) in [(false, false), (true, false), (false, true), (true, true)] {
        let index = flip_segment_index(h, v);
        assert_eq!(flip_from_segment_index(index), (h, v), "h={h} v={v} index={index}");
    }
}

#[test]
fn action_for_maps_the_licenses_id_to_open_licenses() {
    let licenses_id = "gemelli-open-source-licenses";

    assert_eq!(menu_action_for(licenses_id, licenses_id), Some(MenuAction::OpenLicenses));
}

#[test]
fn menu_action_for_ignores_ids_it_does_not_recognize() {
    assert_eq!(menu_action_for("some-other-item", "gemelli-open-source-licenses"), None);
}

#[test]
fn action_for_maps_the_show_id_to_show() {
    let show_id = "gemelli-tray-show";
    let quit_id = "gemelli-tray-quit";

    assert_eq!(tray_action_for(show_id, show_id, quit_id), Some(TrayAction::Show));
}

#[test]
fn action_for_maps_the_quit_id_to_quit() {
    let show_id = "gemelli-tray-show";
    let quit_id = "gemelli-tray-quit";

    assert_eq!(tray_action_for(quit_id, show_id, quit_id), Some(TrayAction::Quit));
}

#[test]
fn tray_action_for_ignores_ids_it_does_not_recognize() {
    assert_eq!(tray_action_for("some-other-item", "gemelli-tray-show", "gemelli-tray-quit"), None);
}

fn fake_device() -> DeviceInfo {
    DeviceInfo {
        index: 9999,
        name: "nonexistent test device".to_string(),
        id: DeviceId::new("gemelli-test-bogus-id"),
    }
}

#[test]
fn worker_spec_holds_the_given_fields() {
    let spec =
        WorkerSpec { device: fake_device(), requested_fps: Some(30), server_name: "gemelli".to_string() };

    assert_eq!(spec.device, fake_device());
    assert_eq!(spec.requested_fps, Some(30));
    assert_eq!(spec.server_name, "gemelli");
}

#[test]
fn preview_mode_has_output_and_crop_edit() {
    assert_ne!(PreviewMode::Output, PreviewMode::CropEdit);
}

#[test]
fn passes_lowered_filter_matches_substring_and_category() {
    assert!(passes_lowered_filter("serde", "erd", LicenseCategory::Library, None));
    assert!(!passes_lowered_filter("serde", "erd", LicenseCategory::Library, Some(LicenseCategory::Font)));
    assert!(passes_lowered_filter("line seed jp", "", LicenseCategory::Font, Some(LicenseCategory::Font)));
    assert!(!passes_lowered_filter("serde", "SERDE", LicenseCategory::Library, None));
}

#[test]
fn seed_rect_is_a_centred_half_frame() {
    assert_eq!(seed_rect(1920, 1080), CropRect { width: 960, height: 540, x: 480, y: 270 });
    assert_eq!(seed_rect(1, 3), CropRect { width: 1, height: 1, x: 0, y: 1 });
}

#[test]
fn crop_toggle_starts_clears_or_asks_for_a_frame() {
    assert_eq!(
        crop_toggle(false, 1, Some((640, 480))),
        CropToggle::Start(CropRect { width: 320, height: 240, x: 160, y: 120 })
    );
    assert_eq!(crop_toggle(false, 1, None), CropToggle::NoFrameYet);
    assert_eq!(crop_toggle(true, 0, Some((640, 480))), CropToggle::Clear);
    assert_eq!(crop_toggle(true, 1, None), CropToggle::Unchanged);
    assert_eq!(crop_toggle(false, 0, None), CropToggle::Unchanged);
    assert_eq!(
        no_frame_for_crop_message(),
        "no frame yet \u{2014} start capture before adding a crop"
    );
}

#[test]
fn setting_changes_restart_only_an_existing_worker() {
    assert_eq!(restart_on_change(true, true), WorkerCommand::Restart);
    assert_eq!(restart_on_change(true, false), WorkerCommand::Keep);
    assert_eq!(restart_on_change(false, true), WorkerCommand::Keep);
}

#[test]
fn publish_button_starts_or_stops() {
    assert_eq!(publish_button_command(true), WorkerCommand::Stop);
    assert_eq!(publish_button_command(false), WorkerCommand::Start);
    assert_eq!(publish_button_label(true), "STOP PUBLISHING");
    assert_eq!(publish_button_label(false), "START PUBLISHING");
}

#[test]
fn reload_keeps_a_selection_that_still_exists() {
    assert_eq!(selection_after_reload(1, 2), 1);
    assert_eq!(selection_after_reload(2, 2), 0);
    assert_eq!(selection_after_reload(0, 0), 0);
}

#[test]
fn worker_spec_needs_a_selected_device() {
    let devices = vec![device(0, "Cam A", Some("id-a"))];
    let spec = worker_spec_for(&devices, 0, Some(30), "gemelli").expect("a device is selected");
    assert_eq!(spec.device, devices[0]);
    assert_eq!(spec.requested_fps, Some(30));
    assert_eq!(spec.server_name, "gemelli");
    assert!(worker_spec_for(&devices, 1, None, "gemelli").is_none());
    assert_eq!(
        no_device_selected_message(),
        "no capture device selected \u{2014} refresh the device list"
    );
}

#[test]
fn crop_is_refit_only_when_the_input_size_changes() {
    let crop = Some(CropRect { width: 960, height: 540, x: 800, y: 400 });
    assert_eq!(
        refit_on_new_input(Some((640, 480)), Some((1920, 1080)), crop),
        Some(clamp_rect(crop.unwrap(), 640, 480))
    );
    assert_eq!(refit_on_new_input(Some((640, 480)), Some((640, 480)), crop), None);
    assert_eq!(refit_on_new_input(None, Some((640, 480)), crop), None);
    assert_eq!(refit_on_new_input(Some((1920, 1080)), None, crop), None);
    assert_eq!(refit_on_new_input(Some((640, 480)), None, None), None);
}
