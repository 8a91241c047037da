use webcam_sharedtexture_core::licensing::entry::{LicenseCategory, LicenseEntry};
use webcam_sharedtexture_core::licensing::merge::merge;
use webcam_sharedtexture_core::licensing::normalize::{
    normalize, CargoBundleLicense, CargoBundleLicenseText, CargoBundleOutput,
};
use webcam_sharedtexture_core::licensing::render::render_notices;
use webcam_sharedtexture_core::licensing::sort::sort_entries;

fn entry(name: &str, category: LicenseCategory) -> LicenseEntry {
    LicenseEntry {
        name: name.to_string(),
        version: None,
        license: "MIT".to_string(),
        text: "text".to_string(),
        homepage: None,
        category,
    }
}

#[test]
fn category_declared_order_is_library_then_font_then_native() {
    assert!(LicenseCategory::Library < LicenseCategory::Font);
    assert!(LicenseCategory::Font < LicenseCategory::Native);
    assert!(LicenseCategory::Library.rank() < LicenseCategory::Font.rank());
    assert!(LicenseCategory::Font.rank() < LicenseCategory::Native.rank());
}

#[test]
fn appendix_entry_replaces_scanner_entry_with_same_name() {
    let scanner =
        vec![entry("eframe", LicenseCategory::Library), entry("Syphon Framework", LicenseCategory::Library)];
    let appendix = vec![entry("Syphon Framework", LicenseCategory::Native)];

    let merged = merge(scanner, appendix);

    assert_eq!(merged.len(), 2);
    let syphon = merged.iter().find(|e| e.name == "Syphon Framework").unwrap();
    assert_eq!(syphon.category, LicenseCategory::Native);
    assert!(merged.iter().any(|e| e.name == "eframe"));
}

#[test]
fn no_collision_keeps_every_entry() {
    let scanner = vec![entry("eframe", LicenseCategory::Library)];
    let appendix = vec![entry("Syphon Framework", LicenseCategory::Native)];

    let merged = merge(scanner, appendix);

    assert_eq!(merged.len(), 2);
}

#[test]
fn merge_keeps_scanner_order_then_the_appendix() {
    let scanner = vec![
        entry("b", LicenseCategory::Library),
        entry("dup", LicenseCategory::Library),
        entry("a", LicenseCategory::Library),
    ];
    let appendix = vec![entry("dup", LicenseCategory::Font), entry("z", LicenseCategory::Native)];

    let merged = merge(scanner, appendix);

    let names: Vec<(&str, LicenseCategory)> =
        merged.iter().map(|e| (e.name.as_str(), e.category)).collect();
    assert_eq!(
        names,
        vec![
            ("b", LicenseCategory::Library),
            ("a", LicenseCategory::Library),
            ("dup", LicenseCategory::Font),
            ("z", LicenseCategory::Native),
        ]
    );
}

fn component(license: &str, text: &str) -> CargoBundleLicenseText {
    CargoBundleLicenseText { license: license.to_string(), text: text.to_string() }
}

#[test]
fn normalizes_dual_license_package_and_joins_repository_as_homepage() {
    let bundle = CargoBundleOutput {
        third_party_libraries: vec![
            CargoBundleLicense {
                package_name: "eframe".to_string(),
                package_version: "0.35.0".to_string(),
                repository: "https://github.com/emilk/egui".to_string(),
                license: "MIT OR Apache-2.0".to_string(),
                licenses: vec![
                    component("MIT", "MIT license text"),
                    component("Apache-2.0", "Apache license text"),
                ],
            },
            CargoBundleLicense {
                package_name: "no-repo-crate".to_string(),
                package_version: "1.0.0".to_string(),
                repository: "".to_string(),
                license: "MIT".to_string(),
                licenses: vec![component("MIT", "MIT license text")],
            },
        ],
    };

    let entries = normalize(bundle);

    assert_eq!(entries.len(), 2);
    assert_eq!(entries[0].name, "eframe");
    assert_eq!(entries[0].version, Some("0.35.0".to_string()));
    assert_eq!(entries[0].license, "MIT OR Apache-2.0");
    assert_eq!(entries[0].homepage, Some("https://github.com/emilk/egui".to_string()));
    assert_eq!(entries[0].category, LicenseCategory::Library);
    assert_eq!(
        entries[0].text,
        "### MIT\n\nMIT license text\n\n---\n\n### Apache-2.0\n\nApache license text"
    );

    assert_eq!(entries[1].name, "no-repo-crate");
    assert_eq!(entries[1].homepage, None);
    assert_eq!(entries[1].text, "### MIT\n\nMIT license text");
}

#[test]
fn normalize_of_a_package_without_licenses_has_empty_text() {
    let bundle = CargoBundleOutput {
        third_party_libraries: vec![CargoBundleLicense {
            package_name: "bare".to_string(),
            package_version: "0.1.0".to_string(),
            repository: "r".to_string(),
            license: "MIT".to_string(),
            licenses: vec![],
        }],
    };
    let entries = normalize(bundle);
    assert_eq!(entries[0].text, "");
    assert_eq!(entries[0].homepage, Some("r".to_string()));
}

#[test]
fn renders_header_and_entries_with_separators() {
    let entries = vec![
        LicenseEntry {
            name: "libfoo".to_string(),
            version: Some("1.0.0".to_string()),
            license: "MIT".to_string(),
            text: "MIT TEXT".to_string(),
            homepage: Some("https://example.com/libfoo".to_string()),
            category: LicenseCategory::Library,
        },
        LicenseEntry {
            name: "Syphon Framework".to_string(),
            version: None,
            license: "BSD-3-Clause".to_string(),
            text: "BSD TEXT".to_string(),
            homepage: Some("https://github.com/Syphon/Syphon-Framework".to_string()),
            category: LicenseCategory::Native,
        },
    ];

    let rendered = render_notices(&entries);

    let expected = "THIRD-PARTY SOFTWARE NOTICES AND INFORMATION\n\nThis package incorporates components from the projects listed below.\n\n================================================================================\n\nlibfoo 1.0.0\nMIT\nhttps://example.com/libfoo\n\nMIT TEXT\n\n================================================================================\n\nSyphon Framework\nBSD-3-Clause\nhttps://github.com/Syphon/Syphon-Framework\n\nBSD TEXT\n";

    assert_eq!(rendered, expected);
}

#[test]
fn entry_without_homepage_omits_the_homepage_line() {
    let entries = vec![LicenseEntry {
        name: "no-homepage-crate".to_string(),
        version: Some("2.0.0".to_string()),
        license: "MIT".to_string(),
        text: "TEXT".to_string(),
        homepage: None,
        category: LicenseCategory::Library,
    }];

    let rendered = render_notices(&entries);

    assert!(rendered.contains("no-homepage-crate 2.0.0\nMIT\n\nTEXT\n"));
}

#[test]
fn render_of_no_entries_is_the_header_alone() {
    assert_eq!(
        render_notices(&[]),
        "THIRD-PARTY SOFTWARE NOTICES AND INFORMATION\n\nThis package incorporates components from the projects listed below.\n"
    );
}

#[test]
fn sorts_by_category_then_name_with_declared_category_order() {
    let entries = vec![
        entry("zeta", LicenseCategory::Native),
        entry("alpha", LicenseCategory::Library),
        entry("beta", LicenseCategory::Font),
        entry("omega", LicenseCategory::Library),
    ];

    let sorted = sort_entries(entries);

    let order: Vec<(&str, LicenseCategory)> =
        sorted.iter().map(|e| (e.name.as_str(), e.category)).collect();
    assert_eq!(
        order,
        vec![
            ("alpha", LicenseCategory::Library),
            ("omega", LicenseCategory::Library),
            ("beta", LicenseCategory::Font),
            ("zeta", LicenseCategory::Native),
        ]
    );
}

#[test]
fn stable_sort_preserves_relative_order_for_equal_keys() {
    let mut first = entry("dup", LicenseCategory::Library);
    first.version = Some("1.0.0".to_string());
    let mut second = entry("dup", LicenseCategory::Library);
    second.version = Some("2.0.0".to_string());

    let sorted = sort_entries(vec![first.clone(), second.clone()]);

    assert_eq!(sorted[0].version, first.version);
    assert_eq!(sorted[1].version, second.version);
}

#[test]
fn names_sort_by_code_point_with_prefixes_first() {
    let entries = vec![
        entry("ab", LicenseCategory::Library),
        entry("B", LicenseCategory::Library),
        entry("a", LicenseCategory::Library),
        entry("é", LicenseCategory::Library),
    ];
    let sorted = sort_entries(entries);
    let names: Vec<&str> = sorted.iter().map(|e| e.name.as_str()).collect();
    assert_eq!(names, vec!["B", "a", "ab", "é"]);
}

#[test]
fn sorting_keeps_every_entry() {
    let entries: Vec<LicenseEntry> =
        (0..6).map(|i| entry(&format!("n{}", 5 - i), LicenseCategory::Library)).collect();
    let sorted = sort_entries(entries.clone());
    assert_eq!(sorted.len(), entries.len());
    for e in &entries {
        assert!(sorted.contains(e));
    }
}
