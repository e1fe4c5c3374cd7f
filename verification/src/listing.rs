//! Deriving the visible item list: keep, of the enumerated direct children
//! of the root directory, exactly those whose display text contains the
//! filter text as a contiguous substring.

use vstd::prelude::*;
use crate::path_data::PathData;

verus! {

/// `pat` occurs in `text` starting at character position `i`.
pub open spec fn matches_at(text: Seq<char>, pat: Seq<char>, i: int) -> bool {
    &&& 0 <= i
    &&& i + pat.len() <= text.len()
    &&& text.subrange(i, i + pat.len() as int) == pat
}

/// `pat` occurs somewhere in `text` as a contiguous substring.
///
/// The empty pattern occurs in every text (at position 0).
pub open spec fn contains_seq(text: Seq<char>, pat: Seq<char>) -> bool {
    exists|i: int| matches_at(text, pat, i)
}

/// The predicate the listing filters with: the filter text occurs in the
/// entry's display text.
pub open spec fn keeps(input: Seq<char>, p: PathData) -> bool {
    contains_seq(p@, input)
}

/// What a derivation of the visible items returns: the enumerated entries
/// whose display text contains the filter text, in enumeration order.
pub open spec fn filtered_view(entries: Seq<PathData>, input: Seq<char>) -> Seq<PathData> {
    entries.filter(|p: PathData| keeps(input, p))
}

/// Whether `pat` occurs at position `i` of `text`, by comparing the
/// characters one by one.
fn matches_at_exec(text: &str, pat: &str, i: usize) -> (r: bool)
    requires
        i + pat@.len() <= text@.len(),
        text@.len() <= usize::MAX,
    ensures
        r == matches_at(text@, pat@, i as int),
{
    let m = pat.unicode_len();
    let mut j: usize = 0;
    while j < m
        invariant
            m == pat@.len(),
            i + m <= text@.len(),
            text@.len() <= usize::MAX,
            0 <= j <= m,
            forall|k: int| 0 <= k < j ==> text@[i + k] == pat@[k],
        decreases m - j,
    {
        if text.get_char(i + j) != pat.get_char(j) {
            proof {
                if matches_at(text@, pat@, i as int) {
                    assert(text@.subrange(i as int, i + pat@.len())[j as int] == text@[i + j]);
                }
            }
            return false;
        }
        j += 1;
    }
    proof {
        assert forall|k: int| 0 <= k < m implies text@.subrange(i as int, i + m as int)[k]
            == pat@[k] by {
            assert(text@.subrange(i as int, i + m as int)[k] == text@[i + k]);
        }
        assert(text@.subrange(i as int, i + m as int) =~= pat@);
    }
    true
}

/// Whether `pat` occurs in `text` as a contiguous substring of its
/// characters (case-sensitive; an empty `pat` always occurs).
pub fn contains_substring(text: &str, pat: &str) -> (r: bool)
    ensures
        r == contains_seq(text@, pat@),
{
    let n = text.unicode_len();
    let m = pat.unicode_len();
    if m > n {
        return false;
    }
    let mut i: usize = 0;
    while i <= n - m
        invariant
            n == text@.len(),
            m == pat@.len(),
            m <= n,
            0 <= i <= n - m + 1,
            forall|ii: int| 0 <= ii < i ==> !matches_at(text@, pat@, ii),
        decreases n - m + 1 - i,
    {
        if matches_at_exec(text, pat, i) {
            return true;
        }
        proof {
            if m == 0 {
                assert(text@.subrange(0, 0) =~= pat@);
                assert(matches_at(text@, pat@, 0));
            }
        }
        i += 1;
    }
    false
}

/// Keep, in order, exactly the entries that the predicate holds of.
///
/// `pred` must be a pure test: its result on an entry must equal the
/// ghost predicate `p` applied to that entry.
pub fn list_filtered<F: Fn(&PathData) -> bool>(
    entries: &Vec<PathData>,
    pred: F,
    Ghost(p): Ghost<spec_fn(PathData) -> bool>,
) -> (r: Vec<PathData>)
    requires
        forall|e: PathData| #[trigger] pred.requires((&e,)),
        forall|e: PathData, b: bool| #[trigger] pred.ensures((&e,), b) ==> b == p(e),
    ensures
        r@ == entries@.filter(p),
{
    let mut r: Vec<PathData> = Vec::new();
    let mut idx: usize = 0;
    while idx < entries.len()
        invariant
            0 <= idx <= entries.len(),
            r@ == entries@.take(idx as int).filter(p),
            forall|e: PathData| #[trigger] pred.requires((&e,)),
            forall|e: PathData, b: bool| #[trigger] pred.ensures((&e,), b) ==> b == p(e),
        decreases entries.len() - idx,
    {
        let e = &entries[idx];
        let ghost pre = r@;
        let keep = pred(e);
        if keep {
            r.push(e.clone());
        }
        proof {
            reveal(Seq::filter);
            let s = entries@.take(idx as int + 1);
            assert(s.drop_last() =~= entries@.take(idx as int));
            assert(s.last() == entries@[idx as int]);
            assert(keep == p(entries@[idx as int]));
            assert(r@ == s.filter(p));
        }
        idx += 1;
    }
    proof {
        assert(entries@.take(entries@.len() as int) =~= entries@);
    }
    r
}

proof fn lemma_filter_subset(entries: Seq<PathData>, p: spec_fn(PathData) -> bool)
    ensures
        forall|x: PathData| entries.filter(p).contains(x) ==> entries.contains(x),
    decreases entries.len(),
{
    reveal(Seq::filter);
    if entries.len() > 0 {
        lemma_filter_subset(entries.drop_last(), p);
        assert forall|x: PathData| entries.filter(p).contains(x) implies entries.contains(
            x,
        ) by {
            let f = entries.filter(p);
            let sub = entries.drop_last().filter(p);
            let j = choose|j: int| 0 <= j < f.len() && f[j] == x;
            if p(entries.last()) {
                assert(f == sub.push(entries.last()));
                if j == f.len() - 1 {
                    assert(entries[entries.len() - 1] == x);
                } else {
                    assert(f[j] == sub[j]);
                    assert(sub.contains(x));
                }
            } else {
                assert(f == sub);
                assert(sub.contains(x));
            }
            if sub.contains(x) {
                assert(entries.drop_last().contains(x));
                let k = choose|k: int|
                    0 <= k < entries.drop_last().len() && entries.drop_last()[k] == x;
                assert(entries.drop_last()[k] == entries[k]);
                assert(entries[k] == x);
            }
        }
    }
}

/// The listing is exact: every listed entry satisfies the predicate and is
/// one of the enumerated entries, every enumerated entry the predicate
/// holds of is listed, and nothing else ever appears.
pub proof fn lemma_list_filtered_exact(entries: Seq<PathData>, p: spec_fn(PathData) -> bool)
    ensures
        forall|i: int|
            0 <= i < entries.filter(p).len() ==> p(#[trigger] entries.filter(p)[i]),
        forall|x: PathData| entries.filter(p).contains(x) ==> entries.contains(x),
        forall|i: int|
            0 <= i < entries.len() && p(entries[i]) ==> entries.filter(p).contains(
                #[trigger] entries[i],
            ),
        entries.filter(p).len() <= entries.len(),
{
    assert forall|i: int|
        0 <= i < entries.filter(p).len() implies p(#[trigger] entries.filter(p)[i]) by {
        entries.lemma_filter_pred(p, i);
    }
    assert forall|i: int|
        0 <= i < entries.len() && p(entries[i]) implies entries.filter(p).contains(
        #[trigger] entries[i],
    ) by {
        entries.lemma_filter_contains(p, i);
    }
    entries.lemma_filter_len(p);
    lemma_filter_subset(entries, p);
}

/// An enumerated path appears in the substring-filtered listing iff the
/// filter text occurs in its display text.
pub proof fn lemma_filtered_view_membership(entries: Seq<PathData>, input: Seq<char>, p: PathData)
    requires
        entries.contains(p),
    ensures
        filtered_view(entries, input).contains(p) <==> contains_seq(p@, input),
{
    let pred = |q: PathData| keeps(input, q);
    lemma_list_filtered_exact(entries, pred);
    let f = entries.filter(pred);
    if f.contains(p) {
        let j = choose|j: int| 0 <= j < f.len() && f[j] == p;
        assert(pred(f[j]));
    }
    if contains_seq(p@, input) {
        let i = choose|i: int| 0 <= i < entries.len() && entries[i] == p;
        assert(pred(entries[i]));
        assert(f.contains(entries[i]));
    }
}

/// With an empty filter text the listing is the whole enumeration,
/// in enumeration order.
pub proof fn lemma_empty_filter_lists_all(entries: Seq<PathData>)
    ensures
        filtered_view(entries, Seq::<char>::empty()) == entries,
    decreases entries.len(),
{
    reveal(Seq::filter);
    assert forall|p: PathData| keeps(Seq::<char>::empty(), p) by {
        assert(p@.subrange(0, 0) =~= Seq::<char>::empty());
        assert(matches_at(p@, Seq::<char>::empty(), 0));
    }
    if entries.len() == 0 {
        assert(filtered_view(entries, Seq::<char>::empty()) =~= entries);
    } else {
        lemma_empty_filter_lists_all(entries.drop_last());
        assert(entries.drop_last().push(entries.last()) =~= entries);
    }
}

/// The derivation is deterministic: two derivations from the same
/// enumeration and the same predicate return the same items. Enumeration
/// order can vary only in the enumeration handed in, never in the
/// derivation itself.
pub proof fn lemma_lister_idempotent(
    entries: Seq<PathData>,
    p: spec_fn(PathData) -> bool,
    r1: Seq<PathData>,
    r2: Seq<PathData>,
)
    requires
        r1 == entries.filter(p),
        r2 == entries.filter(p),
    ensures
        r1 == r2,
{
}

/// The live filtered view: a pure derivation from the enumerated entries
/// and the filter text, recomputed fresh on every display.
pub struct FilteredItems;

impl FilteredItems {
    /// Derive the visible items: the entries whose display text contains
    /// `input`, in enumeration order.
    pub fn filter(entries: &Vec<PathData>, input: &String) -> (r: Vec<PathData>)
        ensures
            r@ == filtered_view(entries@, input@),
    {
        let cl = |e: &PathData| -> (b: bool)
            ensures
                b == keeps(input@, *e),
            { contains_substring(e.as_text(), input.as_str()) };
        list_filtered(entries, cl, Ghost(|p: PathData| keeps(input@, p)))
    }
}

} // verus!
