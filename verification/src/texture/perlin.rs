//! The tables behind Perlin noise.
//!
//! Noise is made from a table of directions and three shuffled tables of
//! whole numbers that pick a direction for every point of a lattice. This
//! module shuffles the tables and picks from them.

use crate::random::below;
use vstd::prelude::*;
use vstd::seq_lib::*;

verus! {

/// The number of points to use for noise generation.
pub const POINT_COUNT: usize = 256;

/// The numbers from 0 up to `n`, in order.
pub open spec fn counting(n: nat) -> Seq<u8> {
    Seq::new(n, |i: int| i as u8)
}

/// Shuffles the first `n` entries of a table among themselves: from the
/// last of them down to the second, each is exchanged with an entry before
/// it that chance picks. The entries behind them stay where they are.
pub fn permutate(p: &mut Vec<u8>, n: usize)
    requires
        n <= old(p)@.len(),
    ensures
        exists|targets: Seq<int>| #[trigger] shuffle_of(old(p)@, n as int, targets, final(p)@),
        final(p)@.len() == old(p)@.len(),
        final(p)@.to_multiset() == old(p)@.to_multiset(),
        final(p)@.take(n as int).to_multiset() == old(p)@.take(n as int).to_multiset(),
        forall|i: int| n <= i < old(p)@.len() ==> final(p)@[i] == old(p)@[i],
{
    let ghost start = p@;
    let ghost mut targets: Seq<int> = Seq::new(n as nat, |k: int| 0int);
    let mut i = n;
    while i > 1
        invariant
            i <= n <= p@.len(),
            n >= 1 ==> i >= 1,
            p@.len() == start.len(),
            p@.to_multiset() == start.to_multiset(),
            p@.take(n as int).to_multiset() == start.take(n as int).to_multiset(),
            forall|k: int| n <= k < start.len() ==> p@[k] == start[k],
            targets.len() == n,
            forall|k: int| i <= k < n ==> 0 <= #[trigger] targets[k] < k,
            p@ == exchanges(start, n as int, i as int, targets),
        decreases i,
    {
        i -= 1;
        let target = below(i);
        let ghost before = p@;
        let a = p[i];
        let b = p[target];
        p[i] = b;
        p[target] = a;
        proof {
            broadcast use group_to_multiset_ensures;

            assert(p@ == before.update(i as int, b).update(target as int, a));
            let inner = before.take(n as int);
            assert(p@.take(n as int) == inner.update(i as int, b).update(target as int, a));
            let earlier = targets;
            targets = targets.update(i as int, target as int);
            lemma_exchanges_look_ahead(start, n as int, i + 1, earlier, targets);
            assert(p@ == exchanged(before, i as int, target as int));
        }
    }
    proof {
        if n == 0 {
            assert(p@ == exchanges(start, n as int, 1, targets));
        }
        assert(shuffle_of(start, n as int, targets, p@));
    }
}

/// A table with the entries in the places `i` and `j` exchanged.
pub open spec fn exchanged(table: Seq<u8>, i: int, j: int) -> Seq<u8> {
    table.update(i, table[j]).update(j, table[i])
}

/// The table that the exchanges for the places from `n - 1` down to `i`
/// leave: first the entry in place `n - 1` is exchanged with that in place
/// `targets[n - 1]`, then the entry in place `n - 2` with that in place
/// `targets[n - 2]`, and so on down to place `i`.
pub open spec fn exchanges(start: Seq<u8>, n: int, i: int, targets: Seq<int>) -> Seq<u8>
    decreases n - i,
{
    if i >= n {
        start
    } else {
        exchanged(exchanges(start, n, i + 1, targets), i, targets[i])
    }
}

/// Whether `table` is what a shuffle of the first `n` entries of `start`
/// leaves when chance picks `targets`: every place from the second on has
/// a target before it, and the entries are exchanged with those in their
/// targets, from the last place down to the second.
pub open spec fn shuffle_of(start: Seq<u8>, n: int, targets: Seq<int>, table: Seq<u8>) -> bool {
    &&& targets.len() == n
    &&& forall|k: int| 1 <= k < n ==> 0 <= #[trigger] targets[k] < k
    &&& table == exchanges(start, n, 1, targets)
}

/// The exchanges from a place on depend on the targets from that place on
/// only.
pub proof fn lemma_exchanges_look_ahead(
    start: Seq<u8>,
    n: int,
    i: int,
    a: Seq<int>,
    b: Seq<int>,
)
    requires
        0 <= i,
        a.len() == n,
        b.len() == n,
        forall|k: int| i <= k < n ==> a[k] == b[k],
    ensures
        exchanges(start, n, i, a) == exchanges(start, n, i, b),
    decreases n - i,
{
    if i < n {
        lemma_exchanges_look_ahead(start, n, i + 1, a, b);
    }
}

/// Makes a shuffled table of the numbers from 0 to 255: the numbers in
/// order, with the exchanges of a shuffle applied to them.
pub fn perlin_generate_perm() -> (p: Vec<u8>)
    ensures
        p@.len() == POINT_COUNT,
        p@.to_multiset() == counting(POINT_COUNT as nat).to_multiset(),
        exists|targets: Seq<int>| #[trigger]
            shuffle_of(counting(POINT_COUNT as nat), POINT_COUNT as int, targets, p@),
{
    let mut p: Vec<u8> = Vec::new();
    let mut i: usize = 0;
    while i < POINT_COUNT
        invariant
            i <= POINT_COUNT,
            p@ == counting(i as nat),
        decreases POINT_COUNT - i,
    {
        p.push(i as u8);
        i += 1;
        assert(p@ == counting(i as nat));
    }
    permutate(&mut p, POINT_COUNT);
    p
}

/// A lattice coordinate brought into the table: its lowest eight bits.
pub open spec fn wrapped(x: i32) -> int {
    (x & 255) as int
}

/// The place in the table of directions for the lattice point `(i, j, k)`
/// moved by `(di, dj, dk)`: the three tables' entries for the three
/// coordinates, combined bit by bit.
pub open spec fn lattice_place(
    perm_x: Seq<u8>,
    perm_y: Seq<u8>,
    perm_z: Seq<u8>,
    i: i32,
    j: i32,
    k: i32,
    di: u8,
    dj: u8,
    dk: u8,
) -> u8 {
    perm_x[wrapped((i + di) as i32)] ^ perm_y[wrapped((j + dj) as i32)] ^ perm_z[wrapped(
        (k + dk) as i32,
    )]
}

/// Picks the direction for a corner of the lattice cell at `(i, j, k)`.
/// `di`, `dj` and `dk` say which corner: each is 0 or 1. The corner must
/// lie within the whole numbers that the machine holds.
pub fn lattice_index(
    perm_x: &Vec<u8>,
    perm_y: &Vec<u8>,
    perm_z: &Vec<u8>,
    i: i32,
    j: i32,
    k: i32,
    di: u8,
    dj: u8,
    dk: u8,
) -> (r: usize)
    requires
        perm_x@.len() == POINT_COUNT,
        perm_y@.len() == POINT_COUNT,
        perm_z@.len() == POINT_COUNT,
        di <= 1,
        dj <= 1,
        dk <= 1,
        i + di <= i32::MAX,
        j + dj <= i32::MAX,
        k + dk <= i32::MAX,
    ensures
        r < POINT_COUNT,
        r == lattice_place(perm_x@, perm_y@, perm_z@, i, j, k, di, dj, dk),
{
    let x: i32 = i + di as i32;
    let y: i32 = j + dj as i32;
    let z: i32 = k + dk as i32;
    assert(0 <= (x & 255) < 256 && 0 <= (y & 255) < 256 && 0 <= (z & 255) < 256) by (bit_vector);
    let ix = perm_x[(x & 255) as usize];
    let iy = perm_y[(y & 255) as usize];
    let iz = perm_z[(z & 255) as usize];
    (ix ^ iy ^ iz) as usize
}

} // verus!
