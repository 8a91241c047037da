//! Properties of merging and sorting that hold for all inputs.
use vstd::prelude::*;

use crate::licensing::entry::LicenseEntry;
use crate::licensing::merge::{has_name, merged};
use crate::licensing::normalize::{joined_sections, section, CargoBundleLicenseText};
use crate::licensing::sort::{key_before, sorted_by_key};

verus! {

proof fn lemma_filter_all(s: Seq<LicenseEntry>, pred: spec_fn(LicenseEntry) -> bool)
    requires
        forall|k: int| 0 <= k < s.len() ==> pred(#[trigger] s[k]),
    ensures
        s.filter(pred) == s,
    decreases s.len(),
{
    reveal(Seq::filter);
    if s.len() > 0 {
        lemma_filter_all(s.drop_last(), pred);
        assert(s.drop_last().push(s.last()) =~= s);
    }
}

/// On a name collision the appendix wins: every merged entry whose name the
/// appendix uses is an appendix entry, the appendix is kept whole at the end,
/// and every scanned entry whose name the appendix does not use is kept.
pub proof fn appendix_wins_on_name_collision(scanner: Seq<LicenseEntry>, appendix: Seq<LicenseEntry>)
    ensures
        forall|k: int|
            0 <= k < merged(scanner, appendix).len() && has_name(
                appendix,
                (#[trigger] merged(scanner, appendix)[k]).name@,
            ) ==> appendix.contains(merged(scanner, appendix)[k]),
        merged(scanner, appendix).skip(merged(scanner, appendix).len() - appendix.len()) == appendix,
        forall|k: int|
            0 <= k < scanner.len() && !has_name(appendix, (#[trigger] scanner[k]).name@)
                ==> merged(scanner, appendix).contains(scanner[k]),
{
    broadcast use vstd::seq_lib::group_filter_ensures;

    let keep = |e: LicenseEntry| !has_name(appendix, e.name@);
    let kept = scanner.filter(keep);
    let all = merged(scanner, appendix);
    assert(all == kept + appendix);
    assert forall|k: int|
        0 <= k < all.len() && has_name(appendix, (#[trigger] all[k]).name@) implies appendix.contains(
        all[k],
    ) by {
        if k < kept.len() {
            assert(keep(kept[k]));
        } else {
            assert(all[k] == appendix[k - kept.len()]);
        }
    }
    assert(all.skip(all.len() - appendix.len()) =~= appendix);
    assert forall|k: int|
        0 <= k < scanner.len() && !has_name(appendix, (#[trigger] scanner[k]).name@) implies all.contains(
        scanner[k],
    ) by {
        assert(keep(scanner[k]));
        assert(kept.contains(scanner[k]));
        let j = choose|j: int| 0 <= j < kept.len() && kept[j] == scanner[k];
        assert(all[j] == scanner[k]);
    }
}

/// Where no scanned name is used by the appendix, merging keeps every entry:
/// the scanned ones in order, then the appendix.
pub proof fn merge_without_collision_keeps_every_entry(
    scanner: Seq<LicenseEntry>,
    appendix: Seq<LicenseEntry>,
)
    requires
        forall|k: int| 0 <= k < scanner.len() ==> !has_name(appendix, (#[trigger] scanner[k]).name@),
    ensures
        merged(scanner, appendix) == scanner + appendix,
{
    lemma_filter_all(scanner, |e: LicenseEntry| !has_name(appendix, e.name@));
}

/// In sorted entries every crate library comes before every font and every
/// native framework, and every font before every native framework.
pub proof fn categories_sort_in_declared_order(s: Seq<LicenseEntry>)
    requires
        sorted_by_key(s),
    ensures
        forall|i: int, j: int|
            0 <= i < s.len() && 0 <= j < s.len() && (#[trigger] s[i]).category.order() < (
            #[trigger] s[j]).category.order() ==> i < j,
{
    assert forall|i: int, j: int|
        0 <= i < s.len() && 0 <= j < s.len() && (#[trigger] s[i]).category.order() < (
        #[trigger] s[j]).category.order() implies i < j by {
        if j < i {
            assert(!key_before(s[i], s[j]));
        }
    }
}

/// Joining license texts puts exactly one rule between every two adjacent
/// sections: the text for `a` followed by `b` is the text for `a`, one rule,
/// then the text for `b`. A single license is its section alone, and three
/// licenses are their three sections with a rule between each pair.
pub proof fn one_rule_between_adjacent_sections(
    a: Seq<CargoBundleLicenseText>,
    b: Seq<CargoBundleLicenseText>,
)
    requires
        a.len() > 0,
        b.len() > 0,
    ensures
        joined_sections(a + b) == joined_sections(a) + "\n\n---\n\n"@ + joined_sections(b),
        joined_sections(seq![a[0]]) == section(a[0]),
        b.len() >= 2 ==> joined_sections(seq![a[0], b[0], b[1]]) == section(a[0])
            + "\n\n---\n\n"@ + section(b[0]) + "\n\n---\n\n"@ + section(b[1]),
    decreases b.len(),
{
    let rule = "\n\n---\n\n"@;
    let ab = a + b;
    assert(ab.drop_last() =~= a + b.drop_last());
    assert(ab.last() == b.last());
    if b.len() == 1 {
        assert(b.drop_last() =~= Seq::<CargoBundleLicenseText>::empty());
        assert(a + b.drop_last() =~= a);
        assert(b[0] == b.last());
    } else {
        one_rule_between_adjacent_sections(a, b.drop_last());
        assert(joined_sections(ab) == joined_sections(a) + rule + joined_sections(b.drop_last())
            + rule + section(b.last()));
        assert(joined_sections(ab) =~= joined_sections(a) + rule + joined_sections(b));
    }
    if b.len() >= 2 {
        let three = seq![a[0], b[0], b[1]];
        let two = seq![a[0], b[0]];
        assert(three.drop_last() =~= two);
        assert(two.drop_last() =~= seq![a[0]]);
        assert(joined_sections(seq![a[0]]) == section(a[0]));
        assert(joined_sections(two) == section(a[0]) + rule + section(b[0]));
        assert(joined_sections(three) == joined_sections(two) + rule + section(b[1]));
        assert(joined_sections(three) =~= section(a[0]) + rule + section(b[0]) + rule + section(
            b[1],
        ));
    }
}

} // verus!
