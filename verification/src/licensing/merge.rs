//! Merging scanned license entries with the hand-written appendix.
use vstd::prelude::*;

use crate::licensing::entry::LicenseEntry;
use crate::text::same_text;

verus! {

/// Some entry of `entries` is named `name`.
pub open spec fn has_name(entries: Seq<LicenseEntry>, name: Seq<char>) -> bool {
    exists|k: int| 0 <= k < entries.len() && (#[trigger] entries[k]).name@ == name
}

/// The scanned entries whose name the appendix does not use, in their order,
/// followed by the whole appendix.
pub open spec fn merged(scanner: Seq<LicenseEntry>, appendix: Seq<LicenseEntry>) -> Seq<LicenseEntry> {
    scanner.filter(|e: LicenseEntry| !has_name(appendix, e.name@)) + appendix
}

fn name_listed(entries: &Vec<LicenseEntry>, name: &String) -> (listed: bool)
    ensures
        listed == has_name(entries@, name@),
{
    let mut k: usize = 0;
    while k < entries.len()
        invariant
            k <= entries@.len(),
            forall|j: int| 0 <= j < k ==> (#[trigger] entries@[j]).name@ != name@,
        decreases entries.len() - k,
    {
        if same_text(entries[k].name.as_str(), name.as_str()) {
            return true;
        }
        k = k + 1;
    }
    false
}

/// Merges scanned entries with the appendix. Where a name occurs in both, the
/// appendix entry is kept and the scanned one dropped; everything else is kept.
pub fn merge(scanner: Vec<LicenseEntry>, appendix: Vec<LicenseEntry>) -> (all: Vec<LicenseEntry>)
    ensures
        all@ == merged(scanner@, appendix@),
{
    let ghost input = scanner@;
    let ghost keep = |e: LicenseEntry| !has_name(appendix@, e.name@);
    let mut rest = scanner;
    let mut kept: Vec<LicenseEntry> = Vec::new();
    let n = rest.len();
    let mut i: usize = 0;
    proof {
        reveal(Seq::filter);
        assert(input.take(0) =~= Seq::<LicenseEntry>::empty());
        assert(input.skip(0) =~= input);
    }
    while i < n
        invariant
            n == input.len(),
            i <= n,
            rest@ == input.skip(i as int),
            kept@ == input.take(i as int).filter(keep),
            keep == (|e: LicenseEntry| !has_name(appendix@, e.name@)),
        decreases n - i,
    {
        let x = rest.remove(0);
        proof {
            assert(x == input[i as int]);
            assert(input.take(i + 1) =~= input.take(i as int).push(x));
            input.take(i as int).lemma_filter_push(x, keep);
            assert(rest@ =~= input.skip(i + 1));
        }
        let listed = name_listed(&appendix, &x.name);
        if !listed {
            kept.push(x);
        }
        i = i + 1;
    }
    proof {
        assert(input.take(n as int) =~= input);
    }
    let mut tail = appendix;
    kept.append(&mut tail);
    kept
}

} // verus!
