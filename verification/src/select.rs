//! Selection of candidate files.
//!
//! The run's pattern restricts the batch to entries whose path ends with
//! the configured filter suffix (for example `.jpg`); an empty filter
//! selects every entry. Enumeration of the input directory is the caller's
//! business: it hands the entries' paths here, in enumeration order, and
//! selection keeps that order.

use vstd::prelude::*;

verus! {

/// Whether `filter` is a suffix of `name`.
pub open spec fn suffix_matches(name: Seq<char>, filter: Seq<char>) -> bool {
    filter.len() <= name.len() && name.subrange(
        name.len() - filter.len(),
        name.len() as int,
    ) == filter
}

/// The candidates kept out of `names`: exactly those the filter matches, in
/// their given order.
pub open spec fn select_spec(names: Seq<Seq<char>>, filter: Seq<char>) -> Seq<Seq<char>> {
    names.filter(|n: Seq<char>| suffix_matches(n, filter))
}

/// The glob pattern that enumerates every direct entry of the input
/// directory; the filter itself is applied here, not by the enumeration.
pub fn enumeration_pattern(input_dir: &str) -> (r: String)
    ensures
        r@ == input_dir@ + "/*"@,
{
    let mut out = input_dir.to_owned();
    out.append("/*");
    out
}

/// Whether the configured filter keeps `name`.
pub fn matches_filter(name: &str, filter: &str) -> (r: bool)
    ensures
        r == suffix_matches(name@, filter@),
{
    let n = name.unicode_len();
    let f = filter.unicode_len();
    if f > n {
        false
    } else {
        let tail = name.substring_char(n - f, n).to_owned();
        tail == filter.to_owned()
    }
}

/// Keeps the names the filter matches, in their given order.
pub fn select_candidates(names: &Vec<String>, filter: &String) -> (r: Vec<String>)
    ensures
        r@.map_values(|s: String| s@) == select_spec(
            names@.map_values(|s: String| s@),
            filter@,
        ),
{
    let ghost pred = |n: Seq<char>| suffix_matches(n, filter@);
    let ghost all = names@.map_values(|s: String| s@);
    let mut out: Vec<String> = Vec::new();
    let mut i: usize = 0;
    while i < names.len()
        invariant
            i <= names.len(),
            all == names@.map_values(|s: String| s@),
            pred == (|n: Seq<char>| suffix_matches(n, filter@)),
            out@.map_values(|s: String| s@) == all.subrange(0, i as int).filter(pred),
        decreases names.len() - i,
    {
        let kept = matches_filter(names[i].as_str(), filter.as_str());
        proof {
            reveal(Seq::filter);
            let head = all.subrange(0, i as int);
            let step = all.subrange(0, i + 1 as int);
            assert(step.drop_last() =~= head);
            assert(step.last() == all[i as int]);
            if kept {
                assert(step.filter(pred) == head.filter(pred).push(all[i as int]));
            } else {
                assert(step.filter(pred) == head.filter(pred));
            }
        }
        if kept {
            let item = names[i].clone();
            proof {
                assert(item@ == all[i as int]);
            }
            out.push(item);
            proof {
                assert(out@.map_values(|s: String| s@) =~= all.subrange(0, i + 1 as int).filter(
                    pred,
                ));
            }
        }
        i = i + 1;
    }
    proof {
        assert(all.subrange(0, all.len() as int) =~= all);
    }
    out
}

/// A file the filter does not match is never selected, so no output is ever
/// derived from it.
pub proof fn lemma_unmatched_never_selected(
    names: Seq<Seq<char>>,
    filter: Seq<char>,
    name: Seq<char>,
)
    requires
        !suffix_matches(name, filter),
    ensures
        !select_spec(names, filter).contains(name),
{
    let pred = |n: Seq<char>| suffix_matches(n, filter);
    let sel = names.filter(pred);
    assert forall|i: int| 0 <= i < sel.len() implies sel[i] != name by {
        names.lemma_filter_pred(pred, i);
    }
}

} // verus!
