//! Names and file lists of the Windows distribution.
use vstd::prelude::*;

use crate::bundle::layout::{join_path, joined_path};
use crate::text::{append, owned};

verus! {

/// Name of the Windows staging folder for `version`.
pub open spec fn stage_dir(version: Seq<char>) -> Seq<char> {
    "gemelli-"@ + version + "-windows-x64"@
}

/// Name of the Windows staging folder for `version`; the archive and the
/// installer are named after it.
pub fn stage_dir_name(version: &str) -> (name: String)
    ensures
        name@ == stage_dir(version@),
{
    let mut name = owned("gemelli-");
    append(&mut name, version);
    append(&mut name, "-windows-x64");
    name
}

/// File name of the plain archive for `version`.
pub fn zip_name(version: &str) -> (name: String)
    ensures
        name@ == stage_dir(version@) + ".zip"@,
{
    let mut name = stage_dir_name(version);
    append(&mut name, ".zip");
    name
}

/// The files of the Windows distribution: where each lies in the source tree
/// and the name it gets in the staging folder.
pub open spec fn staged_files() -> Seq<(Seq<char>, Seq<char>)> {
    seq![
        ("target/release/gemelli.exe"@, "gemelli.exe"@),
        ("target/release/gemelli-gui.exe"@, "gemelli-gui.exe"@),
        ("crates/gui/assets/icon.ico"@, "icon.ico"@),
        ("README.md"@, "README.md"@),
        ("THIRD-PARTY-NOTICES"@, "THIRD-PARTY-NOTICES"@),
    ]
}

fn push_pair(
    pairs: &mut Vec<(String, String)>,
    root: &str,
    staging_dir: &str,
    source: &str,
    destination: &str,
)
    ensures
        final(pairs)@.len() == old(pairs)@.len() + 1,
        forall|k: int| 0 <= k < old(pairs)@.len() ==> final(pairs)@[k] == old(pairs)@[k],
        final(pairs)@.last().0@ == joined_path(root@, source@),
        final(pairs)@.last().1@ == joined_path(staging_dir@, destination@),
{
    let from = join_path(root, source);
    let to = join_path(staging_dir, destination);
    pairs.push((from, to));
}

/// (source, destination) pairs copied into the staging folder: each file of
/// `staged_files`, its source under `root`, its destination in `staging_dir`.
pub fn staging_pairs(root: &str, staging_dir: &str) -> (pairs: Vec<(String, String)>)
    ensures
        pairs@.len() == staged_files().len(),
        forall|k: int|
            0 <= k < pairs@.len() ==> (#[trigger] pairs@[k]).0@ == joined_path(
                root@,
                staged_files()[k].0,
            ) && pairs@[k].1@ == joined_path(staging_dir@, staged_files()[k].1),
{
    let mut pairs: Vec<(String, String)> = Vec::new();
    push_pair(&mut pairs, root, staging_dir, "target/release/gemelli.exe", "gemelli.exe");
    push_pair(&mut pairs, root, staging_dir, "target/release/gemelli-gui.exe", "gemelli-gui.exe");
    push_pair(&mut pairs, root, staging_dir, "crates/gui/assets/icon.ico", "icon.ico");
    push_pair(&mut pairs, root, staging_dir, "README.md", "README.md");
    push_pair(&mut pairs, root, staging_dir, "THIRD-PARTY-NOTICES", "THIRD-PARTY-NOTICES");
    pairs
}

/// Location of the installer compiler: the override where one is given, else
/// where the standard Inno Setup 6 installer puts it.
pub fn iscc_path(env_override: Option<String>) -> (path: String)
    ensures
        path@ == match env_override {
            Some(p) => p@,
            None => "C:\\Program Files (x86)\\Inno Setup 6\\ISCC.exe"@,
        },
{
    match env_override {
        Some(p) => p,
        None => owned("C:\\Program Files (x86)\\Inno Setup 6\\ISCC.exe"),
    }
}

} // verus!
