//! The plain-text third-party notices file.
use vstd::prelude::*;

use crate::licensing::entry::LicenseEntry;
use crate::text::append;

verus! {

/// The rule printed above each entry.
pub open spec fn separator() -> Seq<char> {
    "================================================================================"@
}

/// The opening lines of the notices.
pub open spec fn notices_header() -> Seq<char> {
    "THIRD-PARTY SOFTWARE NOTICES AND INFORMATION\n\n"@
        + "This package incorporates components from the projects listed below.\n"@
}

/// The name of an entry, followed by its version where it has one.
pub open spec fn title_line(e: LicenseEntry) -> Seq<char> {
    match e.version {
        Some(v) => e.name@ + " "@ + v@ + "\n"@,
        None => e.name@ + "\n"@,
    }
}

/// The homepage line of an entry; nothing where it has no homepage.
pub open spec fn homepage_line(e: LicenseEntry) -> Seq<char> {
    match e.homepage {
        Some(h) => h@ + "\n"@,
        None => Seq::empty(),
    }
}

/// The block of one entry: a blank line, the rule, a blank line, the title,
/// the license expression, the homepage, a blank line and the license text.
pub open spec fn notice_block(e: LicenseEntry) -> Seq<char> {
    "\n"@ + separator() + "\n\n"@ + title_line(e) + e.license@ + "\n"@ + homepage_line(e) + "\n"@
        + e.text@ + "\n"@
}

/// The blocks of all entries, in order.
pub open spec fn notice_blocks(es: Seq<LicenseEntry>) -> Seq<char>
    decreases es.len(),
{
    if es.len() == 0 {
        Seq::empty()
    } else {
        notice_blocks(es.drop_last()) + notice_block(es.last())
    }
}

fn append_block(out: &mut String, entry: &LicenseEntry)
    ensures
        final(out)@ == old(out)@ + notice_block(*entry),
{
    let ghost start = out@;
    append(out, "\n");
    append(out, "================================================================================");
    append(out, "\n\n");
    let ghost at_title = out@;
    match &entry.version {
        Some(version) => {
            append(out, entry.name.as_str());
            append(out, " ");
            append(out, version.as_str());
            append(out, "\n");
        },
        None => {
            append(out, entry.name.as_str());
            append(out, "\n");
        },
    }
    assert(out@ =~= at_title + title_line(*entry));
    append(out, entry.license.as_str());
    append(out, "\n");
    let ghost at_homepage = out@;
    if let Some(homepage) = &entry.homepage {
        append(out, homepage.as_str());
        append(out, "\n");
    }
    assert(out@ =~= at_homepage + homepage_line(*entry));
    append(out, "\n");
    append(out, entry.text.as_str());
    append(out, "\n");
    assert(out@ =~= start + notice_block(*entry));
}

/// Renders the notices: the header, then one block per entry in order.
pub fn render_notices(entries: &[LicenseEntry]) -> (notices: String)
    ensures
        notices@ == notices_header() + notice_blocks(entries@),
{
    let mut out = String::new();
    append(&mut out, "THIRD-PARTY SOFTWARE NOTICES AND INFORMATION\n\n");
    append(&mut out, "This package incorporates components from the projects listed below.\n");
    let mut k: usize = 0;
    proof {
        assert(entries@.take(0) =~= Seq::<LicenseEntry>::empty());
        assert(out@ =~= notices_header() + notice_blocks(entries@.take(0)));
    }
    while k < entries.len()
        invariant
            k <= entries@.len(),
            out@ == notices_header() + notice_blocks(entries@.take(k as int)),
        decreases entries.len() - k,
    {
        append_block(&mut out, &entries[k]);
        proof {
            let next = entries@.take(k + 1);
            assert(next.drop_last() =~= entries@.take(k as int));
            assert(next.last() == entries@[k as int]);
            assert(out@ =~= notices_header() + notice_blocks(next));
        }
        k = k + 1;
    }
    proof {
        assert(entries@.take(k as int) =~= entries@);
    }
    out
}

} // verus!
