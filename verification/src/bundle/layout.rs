//! Paths inside the application bundle, and the names of distribution folders.
use vstd::prelude::*;

use crate::text::{append, chars_of, owned, same_text};

verus! {

/// The path `seg` adjoined to `base`, as a Unix path is extended: an absolute
/// `seg` replaces `base`; otherwise a `/` separates the two unless `base` is
/// empty or already ends with one.
pub open spec fn joined_path(base: Seq<char>, seg: Seq<char>) -> Seq<char> {
    if seg.len() > 0 && seg[0] == '/' {
        seg
    } else if base.len() == 0 || base.last() == '/' {
        base + seg
    } else {
        base + "/"@ + seg
    }
}

/// Adjoins the path `seg` to `base`.
pub fn join_path(base: &str, seg: &str) -> (joined: String)
    ensures
        joined@ == joined_path(base@, seg@),
{
    let seg_chars = chars_of(seg);
    if seg_chars.len() > 0 && seg_chars[0] == '/' {
        return owned(seg);
    }
    let base_chars = chars_of(base);
    let mut joined = owned(base);
    if base_chars.len() > 0 && base_chars[base_chars.len() - 1] != '/' {
        append(&mut joined, "/");
    }
    append(&mut joined, seg);
    joined
}

/// Every path inside an application bundle that packaging creates or writes.
pub struct AppBundlePaths {
    pub root: String,
    pub contents: String,
    pub macos: String,
    pub frameworks: String,
    pub resources: String,
    pub info_plist: String,
    pub executable: String,
}

impl AppBundlePaths {
    /// The paths of the bundle `app_bundle_name` in `dist_dir`, whose
    /// executable is `executable_name`.
    pub fn new(dist_dir: &str, app_bundle_name: &str, executable_name: &str) -> (paths: Self)
        ensures
            paths.root@ == joined_path(dist_dir@, app_bundle_name@),
            paths.contents@ == joined_path(paths.root@, "Contents"@),
            paths.macos@ == joined_path(paths.contents@, "MacOS"@),
            paths.frameworks@ == joined_path(paths.contents@, "Frameworks"@),
            paths.resources@ == joined_path(paths.contents@, "Resources"@),
            paths.info_plist@ == joined_path(paths.contents@, "Info.plist"@),
            paths.executable@ == joined_path(paths.macos@, executable_name@),
    {
        let root = join_path(dist_dir, app_bundle_name);
        let contents = join_path(root.as_str(), "Contents");
        let macos = join_path(contents.as_str(), "MacOS");
        let frameworks = join_path(contents.as_str(), "Frameworks");
        let resources = join_path(contents.as_str(), "Resources");
        let info_plist = join_path(contents.as_str(), "Info.plist");
        let executable = join_path(macos.as_str(), executable_name);
        AppBundlePaths { root, contents, macos, frameworks, resources, info_plist, executable }
    }
}

/// Name of the folder inside the command-line tarball for `version`.
pub fn tarball_dir_name(version: &str) -> (name: String)
    ensures
        name@ == "gemelli-"@ + version@ + "-macos-universal"@,
{
    let mut name = owned("gemelli-");
    append(&mut name, version);
    append(&mut name, "-macos-universal");
    name
}

/// Name and version of one workspace package, as `cargo metadata` lists it.
pub struct MetadataPackage {
    pub name: String,
    pub version: String,
}

/// Index of the first package of `packages` named `name`.
pub open spec fn first_named(packages: Seq<MetadataPackage>, name: Seq<char>) -> Option<int> {
    if exists|k: int| 0 <= k < packages.len() && (#[trigger] packages[k]).name@ == name {
        Some(
            choose|k: int|
                0 <= k < packages.len() && (#[trigger] packages[k]).name@ == name && forall|j: int|
                    0 <= j < k ==> (#[trigger] packages[j]).name@ != name,
        )
    } else {
        None
    }
}

/// The version of the first package named `name`; `None` where no package
/// has that name.
pub fn package_version(packages: &[MetadataPackage], name: &str) -> (version: Option<String>)
    ensures
        match first_named(packages@, name@) {
            Some(k) => version matches Some(v) && v@ == packages@[k].version@,
            None => version is None,
        },
{
    let mut k: usize = 0;
    while k < packages.len()
        invariant
            k <= packages@.len(),
            forall|j: int| 0 <= j < k ==> (#[trigger] packages@[j]).name@ != name@,
        decreases packages.len() - k,
    {
        if same_text(packages[k].name.as_str(), name) {
            proof {
                let kk = k as int;
                let c = choose|c: int|
                    0 <= c < packages@.len() && (#[trigger] packages@[c]).name@ == name@ && forall|
                        j: int,
                    |
                        0 <= j < c ==> (#[trigger] packages@[j]).name@ != name@;
                assert(0 <= kk < packages@.len() && packages@[kk].name@ == name@ && forall|j: int|
                    0 <= j < kk ==> (#[trigger] packages@[j]).name@ != name@);
                if c < kk {
                } else if c > kk {
                    assert(packages@[kk].name@ != name@);
                }
            }
            return Some(packages[k].version.clone());
        }
        k = k + 1;
    }
    None
}

/// Why packaging could not go on.
#[derive(Debug, PartialEq, Eq)]
pub enum XtaskError {
    /// No workspace package of this name is listed.
    PackageNotFound(String),
}

/// The message of a packaging error.
pub open spec fn xtask_error_text(e: XtaskError) -> Seq<char> {
    match e {
        XtaskError::PackageNotFound(name) => "package `"@ + name@
            + "` not found in `cargo metadata` output"@,
    }
}

impl XtaskError {
    pub fn message(&self) -> (text: String)
        ensures
            text@ == xtask_error_text(*self),
    {
        match self {
            XtaskError::PackageNotFound(name) => {
                let mut text = owned("package `");
                append(&mut text, name.as_str());
                append(&mut text, "` not found in `cargo metadata` output");
                text
            },
        }
    }
}

/// The version of the graphical application's package, `gemelli-gui`; an
/// error naming that package when none is listed.
pub fn gui_package_version(packages: &[MetadataPackage]) -> (version: Result<String, XtaskError>)
    ensures
        match first_named(packages@, "gemelli-gui"@) {
            Some(k) => version matches Ok(v) && v@ == packages@[k].version@,
            None => version matches Err(XtaskError::PackageNotFound(name)) && name@
                == "gemelli-gui"@,
        },
{
    match package_version(packages, "gemelli-gui") {
        Some(v) => Ok(v),
        None => Err(XtaskError::PackageNotFound(owned("gemelli-gui"))),
    }
}

} // verus!
