//! The coordinator: builds the ring and the philosophers, runs the
//! dinner, and closes the channel with the terminal sentinel once every
//! philosopher is done. `run_dinner` plays the whole dinner under the
//! sequential schedule, in which the cycle-completion and channel
//! properties are proved outright; the embedding program instead runs
//! one task per philosopher against real locks and joins them all before
//! sending the sentinel.

use vstd::prelude::*;
use crate::channel::Channel;
use crate::channel::is_thought_by;
use crate::philosopher::Philosopher;
use crate::ring::lemma_seat_pair_distinct;
use crate::ring::pair_indices;
use crate::ring::seat_pair;
use crate::table::ForkTable;
use vstd::arithmetic::div_mod::lemma_mod_multiples_vanish;
use vstd::arithmetic::div_mod::lemma_small_mod;
use vstd::arithmetic::mul::lemma_mul_inequality;
use vstd::arithmetic::mul::lemma_mul_is_distributive_add_other_way;

verus! {

/// Seat one philosopher per name: seat i gets the adjacent fork pair of
/// the ring, so each fork is shared by exactly two neighbouring seats.
pub fn make_philosophers(names: &Vec<String>) -> (ps: Vec<Philosopher>)
    requires
        2 <= names@.len(),
    ensures
        ps@.len() == names@.len(),
        forall|i: int|
            0 <= i < ps@.len() ==> {
                let p = #[trigger] ps@[i];
                &&& p.name == names@[i]
                &&& p.seat == i
                &&& p.left == seat_pair(i, names@.len() as int).0
                &&& p.right == seat_pair(i, names@.len() as int).1
                &&& p.fits(names@.len() as nat)
            },
{
    let n = names.len();
    let pairs = pair_indices(n);
    let mut ps: Vec<Philosopher> = Vec::new();
    let mut i: usize = 0;
    while i < n
        invariant
            2 <= n,
            n == names@.len(),
            pairs@.len() == n,
            forall|k: int|
                0 <= k < n ==> (#[trigger] pairs@[k]).0 == seat_pair(k, n as int).0 && pairs@[k].1
                    == seat_pair(k, n as int).1,
            i <= n,
            ps@.len() == i,
            forall|k: int|
                0 <= k < i ==> {
                    let p = #[trigger] ps@[k];
                    &&& p.name == names@[k]
                    &&& p.seat == k
                    &&& p.left == seat_pair(k, n as int).0
                    &&& p.right == seat_pair(k, n as int).1
                    &&& p.fits(n as nat)
                },
        decreases n - i,
    {
        let pair = pairs[i];
        proof {
            lemma_seat_pair_distinct(i as int, n as int);
        }
        ps.push(Philosopher::new(names[i].clone(), i, pair.0, pair.1));
        i = i + 1;
    }
    ps
}

/// A full dinner under the sequential schedule: each of the `cycles`
/// rounds lets every philosopher, in seat order, think once and eat
/// once. Every eating attempt succeeds — under this schedule no one
/// else holds a fork while a philosopher probes — and the run returns
/// the closed channel together with the number of meals eaten. The
/// channel holds exactly one thought per philosopher and round, in
/// schedule order, closed by the single sentinel; the meal count shows
/// that every philosopher completed every one of its cycles.
pub fn run_dinner(names: &Vec<String>, cycles: usize) -> (r: (Channel, usize))
    requires
        2 <= names@.len(),
        cycles * names@.len() < usize::MAX,
    ensures
        r.0.wf(),
        r.0.done_sent,
        r.0.log().len() == cycles * names@.len() + 1,
        r.0.log().last() is Done,
        forall|k: int|
            0 <= k < cycles * names@.len() ==> is_thought_by(
                #[trigger] r.0.log()[k],
                names@[k % (names@.len() as int)]@,
            ),
        r.1 == cycles * names@.len(),
{
    let n = names.len();
    let ps = make_philosophers(names);
    let mut table = ForkTable::new(n);
    let mut channel = Channel::new();
    let mut meals: usize = 0;
    let mut c: usize = 0;
    while c < cycles
        invariant
            2 <= n,
            n == names@.len(),
            cycles * n < usize::MAX,
            c <= cycles,
            ps@.len() == n,
            forall|i: int|
                0 <= i < n ==> {
                    let p = #[trigger] ps@[i];
                    &&& p.name == names@[i]
                    &&& p.fits(n as nat)
                },
            table.spec_len() == n,
            table.all_free(),
            channel.wf(),
            !channel.done_sent,
            channel.log().len() == c * n,
            meals == c * n,
            forall|k: int|
                0 <= k < c * n ==> is_thought_by(
                    #[trigger] channel.log()[k],
                    names@[k % (n as int)]@,
                ),
        decreases cycles - c,
    {
        proof {
            lemma_mul_inequality(c as int + 1, cycles as int, n as int);
            lemma_mul_is_distributive_add_other_way(n as int, c as int, 1);
        }
        let mut i: usize = 0;
        while i < n
            invariant
                2 <= n,
                n == names@.len(),
                cycles * n < usize::MAX,
                c < cycles,
                (c + 1) * n <= cycles * n,
                (c + 1) * n == c * n + n,
                i <= n,
                ps@.len() == n,
                forall|j: int|
                    0 <= j < n ==> {
                        let p = #[trigger] ps@[j];
                        &&& p.name == names@[j]
                        &&& p.fits(n as nat)
                    },
                table.spec_len() == n,
                table.all_free(),
                channel.wf(),
                !channel.done_sent,
                channel.log().len() == c * n + i,
                meals == c * n + i,
                forall|k: int|
                    0 <= k < c * n + i ==> is_thought_by(
                        #[trigger] channel.log()[k],
                        names@[k % (n as int)]@,
                    ),
            decreases n - i,
        {
            let p = &ps[i];
            p.think(&mut channel);
            proof {
                lemma_mod_multiples_vanish(c as int, i as int, n as int);
                lemma_small_mod(i as nat, n as nat);
                assert((c * n + i) % (n as int) == i);
            }
            let ghost before_eat = table;
            let ate = p.eat(&mut table);
            assert(ate);
            proof {
                assert forall|f: int| 0 <= f < table.spec_len() implies table.is_free(f) by {
                    assert(table.holder(f) == before_eat.holder(f));
                    assert(before_eat.is_free(f));
                }
            }
            meals = meals + 1;
            i = i + 1;
        }
        c = c + 1;
    }
    channel.finish();
    (channel, meals)
}

} // verus!
