//! The order in which crates are tried.

use vstd::prelude::*;
use vstd::seq_lib::lemma_multiset_commutative;
use vstd::set_lib::{lemma_int_range, lemma_subset_equality, set_int_range};

use crate::registry::Crate;

verus! {

/// The crate at one place counts for less than the one at another: it has fewer downloads or, with
/// as many, stands before it.
pub open spec fn less(crates: Seq<Crate>, a: int, b: int) -> bool {
    crates[a].downloads < crates[b].downloads || (crates[a].downloads == crates[b].downloads && a
        < b)
}

/// The crate at one place is to come before the one at another.
pub open spec fn precedes(crates: Seq<Crate>, descending: bool, a: int, b: int) -> bool {
    if descending {
        less(crates, b, a)
    } else {
        less(crates, a, b)
    }
}

/// The places list all crates in order, each once.
pub open spec fn in_order(crates: Seq<Crate>, descending: bool, places: Seq<int>) -> bool {
    &&& places.len() == crates.len()
    &&& forall|i: int| 0 <= i < places.len() ==> 0 <= #[trigger] places[i] < crates.len()
    &&& forall|i: int, j: int|
        0 <= i < j < places.len() ==> precedes(
            crates,
            descending,
            #[trigger] places[i],
            #[trigger] places[j],
        )
}

/// The crates at these places.
pub open spec fn at_places(crates: Seq<Crate>, places: Seq<int>) -> Seq<Crate> {
    places.map_values(|p: int| crates[p])
}

/// The crates, put in order.
pub open spec fn is_sorted(crates: Seq<Crate>, descending: bool, sorted: Seq<Crate>) -> bool {
    exists|places: Seq<int>| #[trigger]
        in_order(crates, descending, places) && sorted == at_places(crates, places)
}

/// Puts the crate with the most downloads first; of two with as many, the one that stood later
/// comes first.
pub fn order_crates(crates: Vec<Crate>) -> (r: Vec<Crate>)
    ensures
        is_sorted(crates@, true, r@),
        r@.to_multiset() == crates@.to_multiset(),
{
    sort(crates, true)
}

/// Sorts by merging halves that are sorted the other way round, so that both are taken from
/// their ends.
fn sort(crates: Vec<Crate>, descending: bool) -> (r: Vec<Crate>)
    ensures
        is_sorted(crates@, descending, r@),
        r@.to_multiset() == crates@.to_multiset(),
    decreases crates.len(),
{
    let n: usize = crates.len();
    if n <= 1 {
        proof {
            let places = Seq::new(n as nat, |i: int| i);
            assert(in_order(crates@, descending, places));
            assert(at_places(crates@, places) =~= crates@);
        }
        return crates;
    }
    let ghost all = crates@;
    let half: usize = n / 2;
    let mut first = crates;
    let second = first.split_off(half);
    let ghost front = first@;
    let ghost back = second@;
    assert(all =~= front + back);
    let mut left = sort(first, !descending);
    let mut right = sort(second, !descending);
    let ghost other_way = !descending;
    let ghost lp = choose|places: Seq<int>| #[trigger]
        in_order(front, other_way, places) && left@ == at_places(front, places);
    let ghost rp = choose|places: Seq<int>| #[trigger]
        in_order(back, other_way, places) && right@ == at_places(back, places);
    let ghost mut places: Seq<int> = Seq::empty();
    let mut out: Vec<Crate> = Vec::new();
    proof {
        lemma_multiset_commutative(front, back);
        assert(out@.to_multiset().add(left@.to_multiset()).add(right@.to_multiset())
            =~= all.to_multiset()) by {
            broadcast use vstd::seq_lib::group_to_multiset_ensures;

            assert(out@.to_multiset() =~= vstd::multiset::Multiset::empty());
        }
    }
    while left.len() > 0 || right.len() > 0
        invariant
            all == front + back,
            front.len() == half,
            in_order(front, !descending, lp),
            in_order(back, !descending, rp),
            left.len() <= lp.len(),
            right.len() <= rp.len(),
            forall|i: int| 0 <= i < left.len() ==> #[trigger] left@[i] == front[lp[i]],
            forall|i: int| 0 <= i < right.len() ==> #[trigger] right@[i] == back[rp[i]],
            out.len() == places.len(),
            out.len() + left.len() + right.len() == all.len(),
            forall|k: int| 0 <= k < out.len() ==> #[trigger] out@[k] == all[places[k]],
            forall|k: int| 0 <= k < places.len() ==> 0 <= #[trigger] places[k] < all.len(),
            forall|i: int, j: int|
                0 <= i < j < places.len() ==> precedes(
                    all,
                    descending,
                    #[trigger] places[i],
                    #[trigger] places[j],
                ),
            forall|k: int, i: int|
                0 <= k < places.len() && 0 <= i < left.len() ==> precedes(
                    all,
                    descending,
                    #[trigger] places[k],
                    #[trigger] lp[i],
                ),
            forall|k: int, j: int|
                0 <= k < places.len() && 0 <= j < right.len() ==> precedes(
                    all,
                    descending,
                    #[trigger] places[k],
                    half + #[trigger] rp[j],
                ),
            out@.to_multiset().add(left@.to_multiset()).add(right@.to_multiset())
                == all.to_multiset(),
        decreases left.len() + right.len(),
    {
        let take_left = if right.len() == 0 {
            true
        } else if left.len() == 0 {
            false
        } else {
            let l: u64 = left[left.len() - 1].downloads;
            let r: u64 = right[right.len() - 1].downloads;
            if descending {
                l > r
            } else {
                l <= r
            }
        };
        let ghost was = (out@, left@, right@);
        let taken = if take_left {
            left.pop()
        } else {
            right.pop()
        };
        proof {
            broadcast use vstd::seq_lib::group_to_multiset_ensures;

            let place = if take_left {
                lp[was.1.len() - 1]
            } else {
                half + rp[was.2.len() - 1]
            };
            assert forall|i: int| 0 <= i < left.len() implies precedes(
                all,
                descending,
                place,
                #[trigger] lp[i],
            ) by {
                if take_left {
                    assert(precedes(front, !descending, lp[i], lp[was.1.len() - 1]));
                } else {
                    let last = lp[left.len() - 1];
                    assert(was.1[left.len() - 1] == front[last]);
                    assert(was.2[was.2.len() - 1] == back[rp[was.2.len() - 1]]);
                    assert(precedes(all, descending, place, last));
                    assert(i < left.len() - 1 ==> precedes(front, !descending, lp[i], last));
                }
            }
            assert forall|j: int| 0 <= j < right.len() implies precedes(
                all,
                descending,
                place,
                half + #[trigger] rp[j],
            ) by {
                if take_left {
                    let last = rp[right.len() - 1];
                    assert(was.2[right.len() - 1] == back[last]);
                    assert(was.1[was.1.len() - 1] == front[lp[was.1.len() - 1]]);
                    assert(precedes(all, descending, place, half + last));
                    assert(j < right.len() - 1 ==> precedes(back, !descending, rp[j], last));
                } else {
                    assert(precedes(back, !descending, rp[j], rp[was.2.len() - 1]));
                }
            }
            places = places.push(place);
            if take_left {
                assert(was.1 =~= left@.push(was.1.last()));
            } else {
                assert(was.2 =~= right@.push(was.2.last()));
            }
        }
        match taken {
            Some(c) => {
                out.push(c);
            },
            None => {},
        }
        proof {
            broadcast use vstd::seq_lib::group_to_multiset_ensures;

            assert(out@.to_multiset().add(left@.to_multiset()).add(right@.to_multiset())
                =~= was.0.to_multiset().add(was.1.to_multiset()).add(was.2.to_multiset()));
        }
    }
    proof {
        broadcast use vstd::seq_lib::group_to_multiset_ensures;

        assert(left@.to_multiset() =~= vstd::multiset::Multiset::empty());
        assert(right@.to_multiset() =~= vstd::multiset::Multiset::empty());
        assert(out@.to_multiset() =~= all.to_multiset());
        assert(in_order(all, descending, places));
        assert(out@ =~= at_places(all, places));
    }
    out
}

/// No crate comes before one with more downloads.
pub proof fn law_most_downloaded_first(crates: Seq<Crate>, sorted: Seq<Crate>)
    requires
        is_sorted(crates, true, sorted),
    ensures
        forall|i: int, j: int|
            0 <= i < j < sorted.len() ==> (#[trigger] sorted[i]).downloads >= (
            #[trigger] sorted[j]).downloads,
{
    let places = choose|places: Seq<int>| #[trigger]
        in_order(crates, true, places) && sorted == at_places(crates, places);
    assert forall|i: int, j: int| 0 <= i < j < sorted.len() implies (
    #[trigger] sorted[i]).downloads >= (#[trigger] sorted[j]).downloads by {
        assert(precedes(crates, true, places[i], places[j]));
    }
}

/// There is only one way to put crates in order.
pub proof fn law_order_is_unique(
    crates: Seq<Crate>,
    descending: bool,
    a: Seq<Crate>,
    b: Seq<Crate>,
)
    requires
        is_sorted(crates, descending, a),
        is_sorted(crates, descending, b),
    ensures
        a == b,
{
    let p = choose|places: Seq<int>| #[trigger]
        in_order(crates, descending, places) && a == at_places(crates, places);
    let q = choose|places: Seq<int>| #[trigger]
        in_order(crates, descending, places) && b == at_places(crates, places);
    lemma_same_places(crates, descending, p, q, p.len() as int);
    assert(p =~= q);
}

proof fn lemma_same_places(
    crates: Seq<Crate>,
    descending: bool,
    p: Seq<int>,
    q: Seq<int>,
    n: int,
)
    requires
        in_order(crates, descending, p),
        in_order(crates, descending, q),
        0 <= n <= p.len(),
    ensures
        forall|i: int| 0 <= i < n ==> p[i] == q[i],
    decreases n,
{
    if n > 0 {
        let k = n - 1;
        lemma_same_places(crates, descending, p, q, k);
        if p[k] != q[k] {
            lemma_every_place_occurs(crates, descending, p, q[k]);
            lemma_every_place_occurs(crates, descending, q, p[k]);
            let i = choose|i: int| 0 <= i < p.len() && p[i] == q[k];
            let j = choose|j: int| 0 <= j < q.len() && q[j] == p[k];
            if i < k {
                assert(precedes(crates, descending, q[i], q[k]));
            }
            if j < k {
                assert(precedes(crates, descending, p[j], p[k]));
            }
            assert(precedes(crates, descending, p[k], p[i]));
            assert(precedes(crates, descending, q[k], q[j]));
        }
    }
}

proof fn lemma_every_place_occurs(
    crates: Seq<Crate>,
    descending: bool,
    places: Seq<int>,
    place: int,
)
    requires
        in_order(crates, descending, places),
        0 <= place < crates.len(),
    ensures
        exists|i: int| 0 <= i < places.len() && places[i] == place,
{
    let n = crates.len() as int;
    assert forall|i: int, j: int| 0 <= i < places.len() && 0 <= j < places.len() && i != j implies
        places[i] != places[j] by {
        if i < j {
            assert(precedes(crates, descending, places[i], places[j]));
        } else {
            assert(precedes(crates, descending, places[j], places[i]));
        }
    }
    places.unique_seq_to_set();
    lemma_int_range(0, n);
    assert(places.to_set().subset_of(set_int_range(0, n)));
    lemma_subset_equality(places.to_set(), set_int_range(0, n));
    assert(places.to_set().contains(place));
    assert(places.contains(place));
}

} // verus!
