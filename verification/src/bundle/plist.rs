//! The property list of the application bundle.
use vstd::prelude::*;

use crate::text::{append, append_char, chars_of, owned};

verus! {

/// Values written into the property list, each as displayed: escaping is done
/// when the document is rendered.
pub struct PlistFields<'a> {
    pub bundle_name: &'a str,
    pub display_name: &'a str,
    pub identifier: &'a str,
    pub executable: &'a str,
    pub icon_file: &'a str,
    pub short_version: &'a str,
    pub version: &'a str,
    pub min_system_version: &'a str,
    pub camera_usage_description: &'a str,
}

/// How one character is written inside an XML `<string>` element.
pub open spec fn escaped_char(c: char) -> Seq<char> {
    if c == '&' {
        "&amp;"@
    } else if c == '<' {
        "&lt;"@
    } else if c == '>' {
        "&gt;"@
    } else {
        seq![c]
    }
}

/// `s` with `&`, `<` and `>` replaced by their entity references and every
/// other character kept.
pub open spec fn escaped(s: Seq<char>) -> Seq<char>
    decreases s.len(),
{
    if s.len() == 0 {
        Seq::empty()
    } else {
        escaped(s.drop_last()) + escaped_char(s.last())
    }
}

/// Escapes the XML metacharacters `&`, `<` and `>` of `value`.
pub fn escape_xml(value: &str) -> (out: String)
    ensures
        out@ == escaped(value@),
{
    let chars = chars_of(value);
    let mut out = String::new();
    let mut k: usize = 0;
    proof {
        assert(chars@.take(0) =~= Seq::<char>::empty());
        assert(out@ =~= escaped(chars@.take(0)));
    }
    while k < chars.len()
        invariant
            k <= chars@.len(),
            out@ == escaped(chars@.take(k as int)),
        decreases chars.len() - k,
    {
        let c = chars[k];
        let ghost before = out@;
        if c == '&' {
            append(&mut out, "&amp;");
        } else if c == '<' {
            append(&mut out, "&lt;");
        } else if c == '>' {
            append(&mut out, "&gt;");
        } else {
            append_char(&mut out, c);
        }
        proof {
            let next = chars@.take(k + 1);
            assert(next.drop_last() =~= chars@.take(k as int));
            assert(next.last() == c);
            assert(out@ =~= before + escaped_char(c));
        }
        k = k + 1;
    }
    proof {
        assert(chars@.take(k as int) =~= chars@);
    }
    out
}

/// A key of the dictionary and the escaped value that follows it.
pub open spec fn string_entry(key: Seq<char>, value: Seq<char>) -> Seq<char> {
    "\t<key>"@ + key + "</key>\n\t<string>"@ + escaped(value) + "</string>\n"@
}

/// The whole property list document for `f`.
pub open spec fn plist_document(f: PlistFields) -> Seq<char> {
    "<?xml version=\"1.0\" encoding=\"UTF-8\"?>\n<!DOCTYPE plist PUBLIC \"-//Apple//DTD PLIST 1.0//EN\" \"http://www.apple.com/DTDs/PropertyList-1.0.dtd\">\n<plist version=\"1.0\">\n<dict>\n"@
        + string_entry("CFBundleName"@, f.bundle_name@)
        + string_entry("CFBundleDisplayName"@, f.display_name@)
        + string_entry("CFBundleIdentifier"@, f.identifier@)
        + string_entry("CFBundleExecutable"@, f.executable@)
        + string_entry("CFBundleIconFile"@, f.icon_file@)
        + string_entry("CFBundleShortVersionString"@, f.short_version@)
        + string_entry("CFBundleVersion"@, f.version@)
        + "\t<key>CFBundlePackageType</key>\n\t<string>APPL</string>\n"@
        + string_entry("LSMinimumSystemVersion"@, f.min_system_version@)
        + "\t<key>NSHighResolutionCapable</key>\n\t<true/>\n"@
        + string_entry("NSCameraUsageDescription"@, f.camera_usage_description@)
        + "</dict>\n</plist>\n"@
}

fn append_string_entry(out: &mut String, key: &str, value: &str)
    ensures
        final(out)@ == old(out)@ + string_entry(key@, value@),
{
    let ghost start = out@;
    append(out, "\t<key>");
    append(out, key);
    append(out, "</key>\n\t<string>");
    let escaped_value = escape_xml(value);
    append(out, escaped_value.as_str());
    append(out, "</string>\n");
    assert(out@ =~= start + string_entry(key@, value@));
}

/// Renders the property list of the application bundle. The camera usage
/// description is always present: without it the system refuses camera access.
pub fn info_plist_xml(fields: &PlistFields) -> (xml: String)
    ensures
        xml@ == plist_document(*fields),
{
    let mut out = owned(
        "<?xml version=\"1.0\" encoding=\"UTF-8\"?>\n<!DOCTYPE plist PUBLIC \"-//Apple//DTD PLIST 1.0//EN\" \"http://www.apple.com/DTDs/PropertyList-1.0.dtd\">\n<plist version=\"1.0\">\n<dict>\n",
    );
    append_string_entry(&mut out, "CFBundleName", fields.bundle_name);
    append_string_entry(&mut out, "CFBundleDisplayName", fields.display_name);
    append_string_entry(&mut out, "CFBundleIdentifier", fields.identifier);
    append_string_entry(&mut out, "CFBundleExecutable", fields.executable);
    append_string_entry(&mut out, "CFBundleIconFile", fields.icon_file);
    append_string_entry(&mut out, "CFBundleShortVersionString", fields.short_version);
    append_string_entry(&mut out, "CFBundleVersion", fields.version);
    append(&mut out, "\t<key>CFBundlePackageType</key>\n\t<string>APPL</string>\n");
    append_string_entry(&mut out, "LSMinimumSystemVersion", fields.min_system_version);
    append(&mut out, "\t<key>NSHighResolutionCapable</key>\n\t<true/>\n");
    append_string_entry(&mut out, "NSCameraUsageDescription", fields.camera_usage_description);
    append(&mut out, "</dict>\n</plist>\n");
    out
}

} // verus!
