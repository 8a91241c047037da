use webcam_sharedtexture_core::bundle::cmd::{
    add_rpath_args, cargo_build_release_args, cargo_build_target_args, hdiutil_create_args,
    iscc_args, lipo_create_args, tar_czf_args, tar_zip_args,
};
use webcam_sharedtexture_core::bundle::layout::{
    gui_package_version, join_path, package_version, tarball_dir_name, AppBundlePaths,
    MetadataPackage, XtaskError,
};
use webcam_sharedtexture_core::bundle::plist::{escape_xml, info_plist_xml, PlistFields};
use webcam_sharedtexture_core::bundle::readme::cli_readme_txt;
use webcam_sharedtexture_core::bundle::windows::{iscc_path, stage_dir_name, staging_pairs, zip_name};

fn strings(items: &[&str]) -> Vec<String> {
    items.iter().map(|s| s.to_string()).collect()
}

#[test]
fn lipo_create_args_lists_each_input_then_output_flag() {
    let inputs = strings(&["target/aarch64/gemelli-gui", "target/x86_64/gemelli-gui"]);

    let args = lipo_create_args(&inputs, "target/dist/gemelli-gui");

    assert_eq!(
        args,
        strings(&[
            "-create",
            "target/aarch64/gemelli-gui",
            "target/x86_64/gemelli-gui",
            "-output",
            "target/dist/gemelli-gui",
        ])
    );
}

#[test]
fn add_rpath_args_is_flag_rpath_then_binary() {
    let args = add_rpath_args(
        "@executable_path/../Frameworks",
        "target/dist/gemelli.app/Contents/MacOS/gemelli-gui",
    );

    assert_eq!(
        args,
        strings(&[
            "-add_rpath",
            "@executable_path/../Frameworks",
            "target/dist/gemelli.app/Contents/MacOS/gemelli-gui",
        ])
    );
}

#[test]
fn cargo_build_target_args_matches_release_build_invocation() {
    let args = cargo_build_target_args("gemelli-gui", "aarch64-apple-darwin");

    assert_eq!(
        args,
        strings(&["build", "--release", "-p", "gemelli-gui", "--target", "aarch64-apple-darwin"])
    );
}

#[test]
fn hdiutil_create_args_matches_udzo_dmg_invocation() {
    let args = hdiutil_create_args(
        "gemelli",
        "target/dist/gemelli.app",
        "target/dist/gemelli-0.2.0-macos.dmg",
    );

    assert_eq!(
        args,
        strings(&[
            "create",
            "-volname",
            "gemelli",
            "-srcfolder",
            "target/dist/gemelli.app",
            "-ov",
            "-format",
            "UDZO",
            "target/dist/gemelli-0.2.0-macos.dmg",
        ])
    );
}

#[test]
fn tar_czf_args_chdirs_before_naming_the_entry() {
    let args = tar_czf_args(
        "target/dist/gemelli-0.2.0-macos-universal.tar.gz",
        "target/dist",
        "gemelli-0.2.0-macos-universal",
    );

    assert_eq!(
        args,
        strings(&[
            "czf",
            "target/dist/gemelli-0.2.0-macos-universal.tar.gz",
            "-C",
            "target/dist",
            "gemelli-0.2.0-macos-universal",
        ])
    );
}

#[test]
fn cargo_build_release_args_lists_each_package_after_its_own_flag() {
    let args = cargo_build_release_args(&["gemelli-cli", "gemelli-gui"]);

    assert_eq!(args, strings(&["build", "--release", "-p", "gemelli-cli", "-p", "gemelli-gui"]));
}

#[test]
fn tar_zip_args_uses_auto_format_and_chdirs_before_naming_the_entry() {
    let args = tar_zip_args(
        "target/dist/gemelli-0.4.0-windows-x64.zip",
        "target/dist",
        "gemelli-0.4.0-windows-x64",
    );

    assert_eq!(
        args,
        strings(&[
            "-a",
            "-c",
            "-f",
            "target/dist/gemelli-0.4.0-windows-x64.zip",
            "-C",
            "target/dist",
            "gemelli-0.4.0-windows-x64",
        ])
    );
}

#[test]
fn iscc_args_passes_defines_then_script_path() {
    let args = iscc_args(
        "0.4.0",
        "/work/target/dist/gemelli-0.4.0-windows-x64",
        "/work/target/dist",
        "/work/packaging/windows/gemelli.iss",
    );

    assert_eq!(
        args,
        strings(&[
            "/DMyAppVersion=0.4.0",
            "/DSourceDir=/work/target/dist/gemelli-0.4.0-windows-x64",
            "/DOutputDir=/work/target/dist",
            "/work/packaging/windows/gemelli.iss",
        ])
    );
}

#[test]
fn computes_every_app_bundle_path_from_dist_dir_and_names() {
    let paths = AppBundlePaths::new("target/dist", "gemelli.app", "gemelli-gui");

    assert_eq!(paths.root, "target/dist/gemelli.app");
    assert_eq!(paths.contents, "target/dist/gemelli.app/Contents");
    assert_eq!(paths.macos, "target/dist/gemelli.app/Contents/MacOS");
    assert_eq!(paths.frameworks, "target/dist/gemelli.app/Contents/Frameworks");
    assert_eq!(paths.resources, "target/dist/gemelli.app/Contents/Resources");
    assert_eq!(paths.info_plist, "target/dist/gemelli.app/Contents/Info.plist");
    assert_eq!(paths.executable, "target/dist/gemelli.app/Contents/MacOS/gemelli-gui");
}

#[test]
fn join_path_follows_unix_path_rules() {
    assert_eq!(join_path("a", "b"), "a/b");
    assert_eq!(join_path("a/", "b"), "a/b");
    assert_eq!(join_path("", "b"), "b");
    assert_eq!(join_path("a", "/abs"), "/abs");
}

#[test]
fn tarball_dir_name_embeds_version_between_fixed_segments() {
    assert_eq!(tarball_dir_name("0.2.0"), "gemelli-0.2.0-macos-universal");
}

fn package(name: &str, version: &str) -> MetadataPackage {
    MetadataPackage { name: name.to_string(), version: version.to_string() }
}

#[test]
fn gui_package_version_finds_gemelli_gui_among_several_workspace_packages() {
    let packages = vec![
        package("gemelli-core", "0.2.0"),
        package("gemelli-gui", "0.2.0"),
        package("xtask", "0.1.0"),
    ];

    let version = gui_package_version(&packages);

    assert!(matches!(version, Ok(ref v) if v == "0.2.0"));
}

#[test]
fn gui_package_version_errors_when_gemelli_gui_is_absent() {
    let packages = vec![package("gemelli-core", "0.2.0")];

    let version = gui_package_version(&packages);

    assert!(
        matches!(version, Err(XtaskError::PackageNotFound(ref name)) if name == "gemelli-gui")
    );
    assert_eq!(
        XtaskError::PackageNotFound("gemelli-gui".to_string()).message(),
        "package `gemelli-gui` not found in `cargo metadata` output"
    );
}

#[test]
fn package_version_takes_the_first_package_of_that_name() {
    let packages = vec![package("a", "1"), package("b", "2"), package("b", "3")];
    assert_eq!(package_version(&packages, "b"), Some("2".to_string()));
    assert_eq!(package_version(&packages, "c"), None);
}

fn gemelli_fields() -> PlistFields<'static> {
    PlistFields {
        bundle_name: "gemelli",
        display_name: "gemelli",
        identifier: "com.naporin0624.gemelli",
        executable: "gemelli-gui",
        icon_file: "icon",
        short_version: "0.2.0",
        version: "0.2.0",
        min_system_version: "11.0",
        camera_usage_description: "gemelli shares your camera feed as a Syphon texture.",
    }
}

#[test]
fn renders_exact_info_plist_xml_for_gemelli_fields() {
    let rendered = info_plist_xml(&gemelli_fields());

    let expected = "<?xml version=\"1.0\" encoding=\"UTF-8\"?>\n<!DOCTYPE plist PUBLIC \"-//Apple//DTD PLIST 1.0//EN\" \"http://www.apple.com/DTDs/PropertyList-1.0.dtd\">\n<plist version=\"1.0\">\n<dict>\n\t<key>CFBundleName</key>\n\t<string>gemelli</string>\n\t<key>CFBundleDisplayName</key>\n\t<string>gemelli</string>\n\t<key>CFBundleIdentifier</key>\n\t<string>com.naporin0624.gemelli</string>\n\t<key>CFBundleExecutable</key>\n\t<string>gemelli-gui</string>\n\t<key>CFBundleIconFile</key>\n\t<string>icon</string>\n\t<key>CFBundleShortVersionString</key>\n\t<string>0.2.0</string>\n\t<key>CFBundleVersion</key>\n\t<string>0.2.0</string>\n\t<key>CFBundlePackageType</key>\n\t<string>APPL</string>\n\t<key>LSMinimumSystemVersion</key>\n\t<string>11.0</string>\n\t<key>NSHighResolutionCapable</key>\n\t<true/>\n\t<key>NSCameraUsageDescription</key>\n\t<string>gemelli shares your camera feed as a Syphon texture.</string>\n</dict>\n</plist>\n";

    assert_eq!(rendered, expected);
}

#[test]
fn escapes_ampersand_and_angle_brackets_in_interpolated_fields() {
    let mut fields = gemelli_fields();
    fields.display_name = "Tom & Jerry <preview>";

    let rendered = info_plist_xml(&fields);

    assert!(rendered.contains("<string>Tom &amp; Jerry &lt;preview&gt;</string>"));
    assert!(!rendered.contains("Tom & Jerry <preview>"));
}

#[test]
fn escape_xml_replaces_each_metacharacter_independently() {
    assert_eq!(escape_xml("plain"), "plain");
    assert_eq!(escape_xml("a & b"), "a &amp; b");
    assert_eq!(escape_xml("<tag>"), "&lt;tag&gt;");
    assert_eq!(escape_xml("&<>"), "&amp;&lt;&gt;");
}

#[test]
fn escape_xml_does_not_escape_an_existing_entity_twice_over() {
    assert_eq!(escape_xml("&amp;"), "&amp;amp;");
    assert_eq!(escape_xml(""), "");
}

#[test]
fn renders_exact_readme_txt_for_a_version() {
    let rendered = cli_readme_txt("0.2.0");

    let expected = "gemelli 0.2.0 (macOS CLI)\n\nWhat this is:\ngemelli captures a webcam and shares it as a Syphon texture that other\nmacOS apps can consume.\n\nFirst run (Gatekeeper):\nThis build is unsigned. Before running it, remove the quarantine\nattribute from this directory:\n\n    xattr -dr com.apple.quarantine <path-to-this-directory>\n\nSyphon.framework:\nSyphon.framework must stay in this directory, next to the `gemelli`\nbinary. The binary resolves it via a relative rpath and will not run if\nthe framework is moved elsewhere.\n\nGetting started:\n\n    ./gemelli --help\n";

    assert_eq!(rendered, expected);
}

#[test]
fn embeds_the_given_version_in_the_title_line() {
    let rendered = cli_readme_txt("9.9.9");

    assert!(rendered.starts_with("gemelli 9.9.9 (macOS CLI)\n"));
}

#[test]
fn stage_dir_name_embeds_version_between_fixed_segments() {
    assert_eq!(stage_dir_name("0.4.0"), "gemelli-0.4.0-windows-x64");
}

#[test]
fn zip_name_appends_zip_to_the_stage_dir_name() {
    assert_eq!(zip_name("0.4.0"), "gemelli-0.4.0-windows-x64.zip");
}

#[test]
fn staging_pairs_maps_every_distribution_file_into_the_staging_dir() {
    let pairs = staging_pairs("/repo", "/repo/target/dist/gemelli-0.4.0-windows-x64");

    let expected = [
        ("/repo/target/release/gemelli.exe", "/repo/target/dist/gemelli-0.4.0-windows-x64/gemelli.exe"),
        (
            "/repo/target/release/gemelli-gui.exe",
            "/repo/target/dist/gemelli-0.4.0-windows-x64/gemelli-gui.exe",
        ),
        ("/repo/crates/gui/assets/icon.ico", "/repo/target/dist/gemelli-0.4.0-windows-x64/icon.ico"),
        ("/repo/README.md", "/repo/target/dist/gemelli-0.4.0-windows-x64/README.md"),
        (
            "/repo/THIRD-PARTY-NOTICES",
            "/repo/target/dist/gemelli-0.4.0-windows-x64/THIRD-PARTY-NOTICES",
        ),
    ];
    let expected: Vec<(String, String)> =
        expected.iter().map(|(a, b)| (a.to_string(), b.to_string())).collect();
    assert_eq!(pairs, expected);
}

#[test]
fn iscc_path_prefers_the_env_override() {
    let path = iscc_path(Some(r"D:\tools\ISCC.exe".to_string()));

    assert_eq!(path, r"D:\tools\ISCC.exe");
}

#[test]
fn iscc_path_defaults_to_the_standard_inno_setup_6_install() {
    let path = iscc_path(None);

    assert_eq!(path, r"C:\Program Files (x86)\Inno Setup 6\ISCC.exe");
}
