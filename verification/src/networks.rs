//! Putting the two readings of the network interfaces together.

use crate::modules::views;
use crate::seq_lemmas::{lemma_filter_empty, lemma_filter_push};
use crate::text::str_eq;
use vstd::prelude::*;

verus! {

/// The test whether a name is among a list of names.
pub open spec fn is_among(names: Seq<Seq<char>>) -> spec_fn(Seq<char>) -> bool {
    |name: Seq<char>| names.contains(name)
}

/// The interfaces to report: those with statistics that have addresses too, in the
/// order of the statistics.
pub open spec fn spec_reported_networks(
    with_stats: Seq<Seq<char>>,
    with_addresses: Seq<Seq<char>>,
) -> Seq<Seq<char>> {
    with_stats.filter(is_among(with_addresses))
}

fn has_name(names: &Vec<String>, name: &str) -> (r: bool)
    ensures
        r == views(names@).contains(name@),
{
    let mut i: usize = 0;
    while i < names.len()
        invariant
            i <= names.len(),
            forall|k: int| 0 <= k < i ==> names@[k]@ != name@,
        decreases names.len() - i,
    {
        if str_eq(names[i].as_str(), name) {
            assert(views(names@)[i as int] == name@);
            return true;
        }
        i = i + 1;
    }
    proof {
        if views(names@).contains(name@) {
            let k = choose|k: int| 0 <= k < views(names@).len() && views(names@)[k] == name@;
            assert(names@[k]@ == name@);
        }
    }
    false
}

/// Picks the interfaces to report. `with_stats` names the interfaces that the
/// statistics know, `with_addresses` those that have addresses. An interface is
/// reported where both know it; one that only one of them knows is left out.
pub fn reported_networks(with_stats: &Vec<String>, with_addresses: &Vec<String>) -> (r: Vec<String>)
    ensures
        views(r@) == spec_reported_networks(views(with_stats@), views(with_addresses@)),
{
    let mut reported: Vec<String> = Vec::new();
    let ghost stats = views(with_stats@);
    let ghost wanted = is_among(views(with_addresses@));
    let mut i: usize = 0;
    proof {
        assert(stats.take(0) =~= Seq::<Seq<char>>::empty());
        lemma_filter_empty(wanted);
        assert(views(reported@) =~= Seq::<Seq<char>>::empty());
    }
    while i < with_stats.len()
        invariant
            i <= with_stats.len(),
            stats == views(with_stats@),
            wanted == is_among(views(with_addresses@)),
            views(reported@) == stats.take(i as int).filter(wanted),
        decreases with_stats.len() - i,
    {
        let name = with_stats[i].as_str();
        let ghost before = views(reported@);
        proof {
            assert(stats.take(i + 1) =~= stats.take(i as int).push(name@));
            lemma_filter_push(stats.take(i as int), name@, wanted);
        }
        if has_name(with_addresses, name) {
            reported.push(name.to_owned());
            assert(views(reported@) =~= before.push(name@));
        }
        i = i + 1;
    }
    proof {
        assert(stats.take(stats.len() as int) =~= stats);
    }
    reported
}

} // verus!
