//! The ring of forks: N forks laid out so that seat i reaches fork i on
//! its left and fork (i + 1) mod N on its right. Each fork is thus shared
//! by exactly two neighbouring seats, and the last pair wraps around to
//! the first fork, closing the cycle.

use vstd::prelude::*;
use vstd::arithmetic::div_mod::lemma_mod_self_0;
use vstd::arithmetic::div_mod::lemma_small_mod;

verus! {

/// An exclusive-access token. It carries no data of its own; all that
/// matters is who holds it, which the table module records.
pub struct Fork;

/// The fork indices that seat `i` of `n` reaches: fork `i` on the left,
/// fork `(i + 1) % n` on the right.
pub open spec fn seat_pair(i: int, n: int) -> (int, int) {
    (i, (i + 1) % n)
}

/// Lay out the ring: one (left, right) fork index pair per seat.
/// Needs at least two seats; a single seat cannot form a cycle.
pub fn pair_indices(n: usize) -> (pairs: Vec<(usize, usize)>)
    requires
        2 <= n,
    ensures
        pairs@.len() == n,
        forall|i: int|
            0 <= i < n ==> (#[trigger] pairs@[i]).0 == seat_pair(i, n as int).0
                && pairs@[i].1 == seat_pair(i, n as int).1,
{
    let mut pairs: Vec<(usize, usize)> = Vec::new();
    let mut i: usize = 0;
    while i < n
        invariant
            i <= n,
            2 <= n,
            pairs@.len() == i,
            forall|k: int|
                0 <= k < i ==> (#[trigger] pairs@[k]).0 == seat_pair(k, n as int).0
                    && pairs@[k].1 == seat_pair(k, n as int).1,
        decreases n - i,
    {
        let right: usize = (i + 1) % n;
        pairs.push((i, right));
        i = i + 1;
    }
    pairs
}

/// The ring truly closes: the right fork of the last seat is the very
/// fork the first seat has on its left.
pub proof fn lemma_ring_wraps(n: int)
    requires
        2 <= n,
    ensures
        seat_pair(n - 1, n).1 == seat_pair(0, n).0,
{
    lemma_mod_self_0(n);
}

/// No seat's two forks coincide: the left and right fork of any seat are
/// distinct, so holding "both" forks is never vacuous.
pub proof fn lemma_seat_pair_distinct(i: int, n: int)
    requires
        2 <= n,
        0 <= i < n,
    ensures
        seat_pair(i, n).0 != seat_pair(i, n).1,
{
    if i + 1 < n {
        lemma_small_mod((i + 1) as nat, n as nat);
    } else {
        lemma_mod_self_0(n);
    }
}

} // verus!
