//! Turning scanner output into license entries.
use vstd::prelude::*;

use crate::licensing::entry::{LicenseCategory, LicenseEntry};
use crate::text::{append, chars_of};

verus! {

/// What the license scanner reports for the whole dependency tree.
#[derive(Debug)]
pub struct CargoBundleOutput {
    pub third_party_libraries: Vec<CargoBundleLicense>,
}

/// What the scanner reports for one package. `repository` is empty where the
/// package names none.
#[derive(Debug)]
pub struct CargoBundleLicense {
    pub package_name: String,
    pub package_version: String,
    pub repository: String,
    pub license: String,
    pub licenses: Vec<CargoBundleLicenseText>,
}

/// One license of a package, with its full text.
#[derive(Debug)]
pub struct CargoBundleLicenseText {
    pub license: String,
    pub text: String,
}

/// One license's part of an entry's text: a heading with its identifier, a
/// blank line, then the license text.
pub open spec fn section(c: CargoBundleLicenseText) -> Seq<char> {
    "### "@ + c.license@ + "\n\n"@ + c.text@
}

/// The sections of all licenses, separated by a rule between blank lines.
pub open spec fn joined_sections(cs: Seq<CargoBundleLicenseText>) -> Seq<char>
    decreases cs.len(),
{
    if cs.len() == 0 {
        Seq::empty()
    } else if cs.len() == 1 {
        section(cs[0])
    } else {
        joined_sections(cs.drop_last()) + "\n\n---\n\n"@ + section(cs.last())
    }
}

/// `e` is the entry made from the scanned package `lib`: its name, version and
/// license expression, the joined license texts, the repository as homepage
/// where there is one, and the library category.
pub open spec fn normalizes_to(lib: CargoBundleLicense, e: LicenseEntry) -> bool {
    &&& e.name@ == lib.package_name@
    &&& e.version matches Some(v) && v@ == lib.package_version@
    &&& e.license@ == lib.license@
    &&& e.text@ == joined_sections(lib.licenses@)
    &&& if lib.repository@.len() == 0 {
        e.homepage is None
    } else {
        e.homepage matches Some(h) && h@ == lib.repository@
    }
    &&& e.category == LicenseCategory::Library
}

fn joined_text(licenses: &Vec<CargoBundleLicenseText>) -> (text: String)
    ensures
        text@ == joined_sections(licenses@),
{
    let mut text = String::new();
    let mut k: usize = 0;
    proof {
        assert(text@ =~= joined_sections(licenses@.take(0)));
    }
    while k < licenses.len()
        invariant
            k <= licenses@.len(),
            text@ == joined_sections(licenses@.take(k as int)),
        decreases licenses.len() - k,
    {
        let c = &licenses[k];
        let ghost before = text@;
        if k > 0 {
            append(&mut text, "\n\n---\n\n");
        }
        append(&mut text, "### ");
        append(&mut text, c.license.as_str());
        append(&mut text, "\n\n");
        append(&mut text, c.text.as_str());
        proof {
            let next = licenses@.take(k + 1);
            assert(next.drop_last() =~= licenses@.take(k as int));
            assert(next.last() == *c);
            if k > 0 {
                assert(text@ =~= before + "\n\n---\n\n"@ + section(*c));
            } else {
                assert(text@ =~= section(*c));
                assert(next[0] == *c);
            }
        }
        k = k + 1;
    }
    proof {
        assert(licenses@.take(k as int) =~= licenses@);
    }
    text
}

fn normalize_one(lib: CargoBundleLicense) -> (e: LicenseEntry)
    ensures
        normalizes_to(lib, e),
{
    let text = joined_text(&lib.licenses);
    let repository_chars = chars_of(lib.repository.as_str());
    let homepage = if repository_chars.len() == 0 {
        None
    } else {
        Some(lib.repository)
    };
    LicenseEntry {
        name: lib.package_name,
        version: Some(lib.package_version),
        license: lib.license,
        text,
        homepage,
        category: LicenseCategory::Library,
    }
}

/// One entry per scanned package, in the scanner's order.
pub fn normalize(bundle: CargoBundleOutput) -> (entries: Vec<LicenseEntry>)
    ensures
        entries@.len() == bundle.third_party_libraries@.len(),
        forall|i: int|
            0 <= i < entries@.len() ==> normalizes_to(
                bundle.third_party_libraries@[i],
                #[trigger] entries@[i],
            ),
{
    let ghost input = bundle.third_party_libraries@;
    let mut rest = bundle.third_party_libraries;
    let mut entries: Vec<LicenseEntry> = Vec::new();
    let n = rest.len();
    let mut i: usize = 0;
    proof {
        assert(input.skip(0) =~= input);
    }
    while i < n
        invariant
            n == input.len(),
            i <= n,
            rest@ == input.skip(i as int),
            entries@.len() == i,
            forall|j: int| 0 <= j < i ==> normalizes_to(input[j], #[trigger] entries@[j]),
        decreases n - i,
    {
        let lib = rest.remove(0);
        proof {
            assert(lib == input[i as int]);
            assert(rest@ =~= input.skip(i + 1));
        }
        let e = normalize_one(lib);
        entries.push(e);
        i = i + 1;
    }
    entries
}

} // verus!
