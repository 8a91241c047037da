//! The README shipped inside the command-line tarball.
use vstd::prelude::*;

use crate::text::{append, owned};

verus! {

/// Everything of the README after the version.
pub open spec fn readme_body() -> Seq<char> {
    " (macOS CLI)\n\nWhat this is:\ngemelli captures a webcam and shares it as a Syphon texture that other\nmacOS apps can consume.\n\nFirst run (Gatekeeper):\nThis build is unsigned. Before running it, remove the quarantine\nattribute from this directory:\n\n    xattr -dr com.apple.quarantine <path-to-this-directory>\n\nSyphon.framework:\nSyphon.framework must stay in this directory, next to the `gemelli`\nbinary. The binary resolves it via a relative rpath and will not run if\nthe framework is moved elsewhere.\n\nGetting started:\n\n    ./gemelli --help\n"@
}

/// The README of the command-line tarball for `version`: what the tarball
/// is, how to lift the quarantine of an unsigned build, and why the Syphon
/// framework must stay beside the binary.
pub fn cli_readme_txt(version: &str) -> (readme: String)
    ensures
        readme@ == "gemelli "@ + version@ + readme_body(),
{
    let mut readme = owned("gemelli ");
    append(&mut readme, version);
    append(
        &mut readme,
        " (macOS CLI)\n\nWhat this is:\ngemelli captures a webcam and shares it as a Syphon texture that other\nmacOS apps can consume.\n\nFirst run (Gatekeeper):\nThis build is unsigned. Before running it, remove the quarantine\nattribute from this directory:\n\n    xattr -dr com.apple.quarantine <path-to-this-directory>\n\nSyphon.framework:\nSyphon.framework must stay in this directory, next to the `gemelli`\nbinary. The binary resolves it via a relative rpath and will not run if\nthe framework is moved elsewhere.\n\nGetting started:\n\n    ./gemelli --help\n",
    );
    readme
}

} // verus!
