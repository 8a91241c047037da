//! Ordering of license entries by category, then by name.
use vstd::prelude::*;

use crate::licensing::entry::LicenseEntry;
use crate::text::chars_of;

verus! {

// ---------------------------------------------------------------------------
// Order on names
// ---------------------------------------------------------------------------
/// Strict order of names as `str` orders them: character by character by code
/// point (the order of their UTF-8 bytes), a proper prefix first.
pub open spec fn name_before(a: Seq<char>, b: Seq<char>) -> bool
    decreases a.len(),
{
    if a.len() == 0 {
        b.len() > 0
    } else if b.len() == 0 {
        false
    } else if a[0] != b[0] {
        (a[0] as int) < (b[0] as int)
    } else {
        name_before(a.drop_first(), b.drop_first())
    }
}

/// No name comes before itself.
pub proof fn lemma_name_irreflexive(a: Seq<char>)
    ensures
        !name_before(a, a),
    decreases a.len(),
{
    if a.len() > 0 {
        lemma_name_irreflexive(a.drop_first());
    }
}

/// Of two names, at most one comes before the other.
pub proof fn lemma_name_asymmetric(a: Seq<char>, b: Seq<char>)
    ensures
        name_before(a, b) ==> !name_before(b, a),
    decreases a.len(),
{
    if a.len() > 0 && b.len() > 0 && a[0] == b[0] {
        lemma_name_asymmetric(a.drop_first(), b.drop_first());
    }
}

/// The order on names is transitive.
pub proof fn lemma_name_transitive(a: Seq<char>, b: Seq<char>, c: Seq<char>)
    ensures
        name_before(a, b) && name_before(b, c) ==> name_before(a, c),
    decreases a.len(),
{
    if a.len() > 0 && b.len() > 0 && c.len() > 0 {
        lemma_name_transitive(a.drop_first(), b.drop_first(), c.drop_first());
    }
}

/// Of two different names, one comes before the other.
pub proof fn lemma_name_total(a: Seq<char>, b: Seq<char>)
    ensures
        a != b ==> name_before(a, b) || name_before(b, a),
    decreases a.len(),
{
    if a.len() > 0 && b.len() > 0 {
        lemma_name_total(a.drop_first(), b.drop_first());
        if a[0] == b[0] && a.drop_first() == b.drop_first() {
            assert(a =~= seq![a[0]] + a.drop_first());
            assert(b =~= seq![b[0]] + b.drop_first());
        } else if a[0] != b[0] {
            assert((a[0] as int) != (b[0] as int));
        }
    } else if a.len() == 0 && b.len() == 0 {
        assert(a =~= b);
    }
}

// ---------------------------------------------------------------------------
// Order on entries
// ---------------------------------------------------------------------------
/// `a` sorts strictly before `b`: by category in declared order, then by name.
pub open spec fn key_before(a: LicenseEntry, b: LicenseEntry) -> bool {
    ||| a.category.order() < b.category.order()
    ||| (a.category.order() == b.category.order() && name_before(a.name@, b.name@))
}

/// `a` and `b` have the same sort key: the same category and the same name.
pub open spec fn same_key(a: LicenseEntry, b: LicenseEntry) -> bool {
    a.category == b.category && a.name@ == b.name@
}

/// No two entries of `s` are out of order.
pub open spec fn sorted_by_key(s: Seq<LicenseEntry>) -> bool {
    forall|i: int, j: int| 0 <= i < j < s.len() ==> !key_before(#[trigger] s[j], #[trigger] s[i])
}

/// The entries of `s` that have the sort key of `e`, in their order in `s`.
pub open spec fn with_key_of(s: Seq<LicenseEntry>, e: LicenseEntry) -> Seq<LicenseEntry> {
    s.filter(|x: LicenseEntry| same_key(x, e))
}

proof fn lemma_key_order(a: LicenseEntry, b: LicenseEntry, c: LicenseEntry)
    ensures
        !key_before(a, a),
        key_before(a, b) ==> !key_before(b, a),
        key_before(a, b) ==> !same_key(a, b),
        key_before(a, b) && key_before(b, c) ==> key_before(a, c),
        key_before(a, b) && same_key(b, c) ==> key_before(a, c),
        same_key(a, b) && key_before(b, c) ==> key_before(a, c),
        same_key(a, b) && same_key(b, c) ==> same_key(a, c),
        same_key(a, b) ==> same_key(b, a),
        key_before(a, b) || key_before(b, a) || same_key(a, b),
{
    lemma_name_irreflexive(a.name@);
    lemma_name_asymmetric(a.name@, b.name@);
    lemma_name_transitive(a.name@, b.name@, c.name@);
    lemma_name_total(a.name@, b.name@);
}

proof fn lemma_filter_none(s: Seq<LicenseEntry>, pred: spec_fn(LicenseEntry) -> bool)
    requires
        forall|k: int| 0 <= k < s.len() ==> !pred(#[trigger] s[k]),
    ensures
        s.filter(pred) =~= Seq::<LicenseEntry>::empty(),
    decreases s.len(),
{
    reveal(Seq::filter);
    if s.len() > 0 {
        lemma_filter_none(s.drop_last(), pred);
    }
}

// ---------------------------------------------------------------------------
// Comparisons
// ---------------------------------------------------------------------------
proof fn lemma_name_before_skip(a: Seq<char>, b: Seq<char>, i: int)
    requires
        0 <= i < a.len(),
        i < b.len(),
        a[i] == b[i],
    ensures
        name_before(a.skip(i), b.skip(i)) == name_before(a.skip(i + 1), b.skip(i + 1)),
{
    assert(a.skip(i).drop_first() =~= a.skip(i + 1));
    assert(b.skip(i).drop_first() =~= b.skip(i + 1));
}

fn name_is_before(a: &Vec<char>, b: &Vec<char>) -> (before: bool)
    ensures
        before == name_before(a@, b@),
{
    let mut i: usize = 0;
    proof {
        assert(a@.skip(0) =~= a@);
        assert(b@.skip(0) =~= b@);
    }
    while i < a.len() && i < b.len() && a[i] == b[i]
        invariant
            i <= a.len(),
            i <= b.len(),
            name_before(a@, b@) == name_before(a@.skip(i as int), b@.skip(i as int)),
        decreases a.len() - i,
    {
        proof {
            lemma_name_before_skip(a@, b@, i as int);
        }
        i = i + 1;
    }
    if i == a.len() {
        i < b.len()
    } else if i == b.len() {
        false
    } else {
        proof {
            assert(a@.skip(i as int)[0] == a@[i as int]);
            assert(b@.skip(i as int)[0] == b@[i as int]);
        }
        a[i] < b[i]
    }
}

fn key_is_before(a: &LicenseEntry, b: &LicenseEntry) -> (before: bool)
    ensures
        before == key_before(*a, *b),
{
    let ra = a.category.rank();
    let rb = b.category.rank();
    if ra != rb {
        ra < rb
    } else {
        let an = chars_of(a.name.as_str());
        let bn = chars_of(b.name.as_str());
        name_is_before(&an, &bn)
    }
}

// ---------------------------------------------------------------------------
// Sorting
// ---------------------------------------------------------------------------
/// Position at which `x` goes into the sorted `out`: after every entry whose
/// key is not greater than the key of `x`.
fn insertion_point(out: &Vec<LicenseEntry>, x: &LicenseEntry) -> (pos: usize)
    requires
        sorted_by_key(out@),
    ensures
        pos <= out@.len(),
        forall|k: int| 0 <= k < pos ==> !key_before(*x, #[trigger] out@[k]),
        forall|k: int| pos <= k < out@.len() ==> key_before(*x, #[trigger] out@[k]),
{
    let mut pos: usize = 0;
    while pos < out.len() && !key_is_before(x, &out[pos])
        invariant
            pos <= out@.len(),
            forall|k: int| 0 <= k < pos ==> !key_before(*x, #[trigger] out@[k]),
        decreases out.len() - pos,
    {
        pos = pos + 1;
    }
    proof {
        assert forall|k: int| pos <= k < out@.len() implies key_before(*x, #[trigger] out@[k]) by {
            if k > pos {
                lemma_key_order(*x, out@[pos as int], out@[k]);
                lemma_key_order(out@[pos as int], out@[k], *x);
            }
        }
    }
    pos
}

proof fn lemma_insert_keeps_order(out: Seq<LicenseEntry>, x: LicenseEntry, pos: int)
    requires
        sorted_by_key(out),
        0 <= pos <= out.len(),
        forall|k: int| 0 <= k < pos ==> !key_before(x, #[trigger] out[k]),
        forall|k: int| pos <= k < out.len() ==> key_before(x, #[trigger] out[k]),
    ensures
        sorted_by_key(out.insert(pos, x)),
{
    let s = out.insert(pos, x);
    assert forall|i: int, j: int| 0 <= i < j < s.len() implies !key_before(
        #[trigger] s[j],
        #[trigger] s[i],
    ) by {
        if i < pos && j == pos {
        } else if i == pos && j > pos {
            lemma_key_order(x, out[j - 1], x);
        } else if i < pos && j > pos {
            assert(s[i] == out[i]);
            assert(s[j] == out[j - 1]);
        } else if j < pos {
            assert(s[i] == out[i]);
            assert(s[j] == out[j]);
        } else {
            assert(s[i] == out[i - 1]);
            assert(s[j] == out[j - 1]);
        }
    }
}

proof fn lemma_insert_keeps_groups(
    out: Seq<LicenseEntry>,
    x: LicenseEntry,
    pos: int,
    e: LicenseEntry,
)
    requires
        0 <= pos <= out.len(),
        forall|k: int| pos <= k < out.len() ==> key_before(x, #[trigger] out[k]),
    ensures
        with_key_of(out.insert(pos, x), e) == (if same_key(x, e) {
            with_key_of(out, e).push(x)
        } else {
            with_key_of(out, e)
        }),
{
    let pred = |y: LicenseEntry| same_key(y, e);
    let front = out.take(pos);
    let back = out.skip(pos);
    assert(out =~= front + back);
    assert(out.insert(pos, x) =~= front.push(x) + back);
    Seq::filter_distributes_over_add(front, back, pred);
    Seq::filter_distributes_over_add(front.push(x), back, pred);
    front.lemma_filter_push(x, pred);
    if same_key(x, e) {
        assert forall|k: int| 0 <= k < back.len() implies !pred(#[trigger] back[k]) by {
            lemma_key_order(x, back[k], e);
            lemma_key_order(back[k], e, x);
        }
        lemma_filter_none(back, pred);
        assert(back.filter(pred) + Seq::<LicenseEntry>::empty() =~= back.filter(pred));
        assert(front.filter(pred).push(x) + back.filter(pred) =~= front.filter(pred).push(x));
        assert(front.filter(pred) + back.filter(pred) =~= front.filter(pred));
    }
}

/// Sorts entries by category in declared order, then by name. The sort is
/// stable: entries with the same category and name keep their order.
pub fn sort_entries(entries: Vec<LicenseEntry>) -> (sorted: Vec<LicenseEntry>)
    ensures
        sorted_by_key(sorted@),
        sorted@.to_multiset() == entries@.to_multiset(),
        forall|e: LicenseEntry| #[trigger] with_key_of(sorted@, e) == with_key_of(entries@, e),
{
    let ghost input = entries@;
    let mut rest = entries;
    let mut out: Vec<LicenseEntry> = Vec::new();
    let mut i: usize = 0;
    let n = rest.len();
    proof {
        assert(input.skip(0) =~= input);
        assert(out@ =~= input.take(0));
        assert forall|e: LicenseEntry| #[trigger]
            with_key_of(out@, e) == with_key_of(input.take(0), e) by {
            reveal(Seq::filter);
            assert(input.take(0) =~= Seq::<LicenseEntry>::empty());
        }
    }
    while i < n
        invariant
            n == input.len(),
            i <= n,
            rest@ == input.skip(i as int),
            sorted_by_key(out@),
            out@.to_multiset() == input.take(i as int).to_multiset(),
            forall|e: LicenseEntry| #[trigger]
                with_key_of(out@, e) == with_key_of(input.take(i as int), e),
        decreases n - i,
    {
        let x = rest.remove(0);
        assert(x == input[i as int]);
        let pos = insertion_point(&out, &x);
        let ghost before = out@;
        proof {
            lemma_insert_keeps_order(before, x, pos as int);
            vstd::seq_lib::to_multiset_insert(before, pos as int, x);
            assert(input.take(i + 1) =~= input.take(i as int).push(x));
            vstd::seq_lib::to_multiset_insert(input.take(i as int), i as int, x);
            assert(input.take(i as int).insert(i as int, x) =~= input.take(i + 1));
            assert forall|e: LicenseEntry| #[trigger]
                with_key_of(before.insert(pos as int, x), e) == with_key_of(input.take(i + 1), e) by {
                lemma_insert_keeps_groups(before, x, pos as int, e);
                input.take(i as int).lemma_filter_push(x, |y: LicenseEntry| same_key(y, e));
            }
            assert(rest@ =~= input.skip(i + 1));
        }
        out.insert(pos, x);
        i = i + 1;
    }
    proof {
        assert(input.take(n as int) =~= input);
    }
    out
}

} // verus!
