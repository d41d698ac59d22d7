//! The integer side of Perlin noise: three shuffled permutation tables, one
//! per axis, and the hash that maps an integer lattice corner to one of 256
//! gradient slots by combining the tables with exclusive-or. The gradient
//! vectors themselves and the smooth interpolation between them are
//! floating-point and live outside the core; they consume the slot index
//! computed here.
use vstd::prelude::*;

use rand::seq::SliceRandom;
use vstd::arithmetic::div_mod::{
    lemma_add_mod_noop, lemma_mod_division_less_than_divisor, lemma_small_mod,
};

verus! {

/// A table holding each of the 256 byte values exactly once.
pub open spec fn is_permutation_256(s: Seq<u8>) -> bool {
    s.len() == 256 && s.no_duplicates()
}

/// The table slot a lattice coordinate selects after the wrap-around at 256:
/// the coordinate plus the corner offset, reduced modulo the table size.
pub open spec fn lattice_slot(c: i32, d: u8) -> int {
    (c as int + d as int) % 256
}

/// Relies on rand's `SliceRandom::shuffle`: an in-place Fisher-Yates
/// rearrangement built from swaps, so the slice afterwards holds exactly the
/// elements it held before, in some order.
#[verifier::external_body]
fn shuffle(values: &mut Vec<u8>)
    ensures
        final(values)@.len() == old(values)@.len(),
        final(values)@.to_multiset() == old(values)@.to_multiset(),
{
    values.shuffle(&mut rand::rng());
}

/// The identity table: slot `i` holds value `i`.
fn identity_table() -> (v: Vec<u8>)
    ensures
        v@.len() == 256,
        forall|i: int| 0 <= i < 256 ==> #[trigger] v@[i] == i,
{
    let mut v: Vec<u8> = Vec::new();
    let mut i: usize = 0;
    while i < 256
        invariant
            i <= 256,
            v@.len() == i,
            forall|j: int| 0 <= j < i ==> #[trigger] v@[j] == j,
        decreases 256 - i,
    {
        v.push(i as u8);
        i = i + 1;
    }
    v
}

/// A fresh random permutation of the 256 byte values: the identity table
/// rearranged by a uniformly random shuffle.
pub fn permutation_table() -> (v: Vec<u8>)
    ensures
        is_permutation_256(v@),
{
    let mut v = identity_table();
    proof {
        assert(v@.no_duplicates());
        v@.lemma_multiset_has_no_duplicates();
    }
    shuffle(&mut v);
    proof {
        assert(forall|x: u8|
            v@.to_multiset().contains(x) ==> #[trigger] v@.to_multiset().count(x) == 1);
        v@.lemma_multiset_has_no_duplicates_conv();
    }
    v
}

fn wrap256(c: i32, d: u8) -> (m: usize)
    ensures
        m == lattice_slot(c, d),
        m < 256,
{
    proof {
        lemma_mod_division_less_than_divisor(c as int, 256);
    }
    let m0: i32 = match c.checked_rem_euclid(256) {
        Some(r) => r,
        None => 0,
    };
    let s: usize = (m0 as usize) + (d as usize);
    let m: usize = s % 256;
    proof {
        lemma_small_mod(d as nat, 256);
        lemma_add_mod_noop(c as int, d as int, 256);
        lemma_mod_division_less_than_divisor(s as int, 256);
    }
    m
}

/// The three per-axis permutation tables Perlin noise hashes lattice points
/// through.
pub struct PerlinTables {
    x: Vec<u8>,
    y: Vec<u8>,
    z: Vec<u8>,
}

impl PerlinTables {
    /// Each axis table is a permutation of the 256 byte values.
    pub closed spec fn wf(&self) -> bool {
        is_permutation_256(self.x@) && is_permutation_256(self.y@) && is_permutation_256(self.z@)
    }

    pub closed spec fn x_table(&self) -> Seq<u8> {
        self.x@
    }

    pub closed spec fn y_table(&self) -> Seq<u8> {
        self.y@
    }

    pub closed spec fn z_table(&self) -> Seq<u8> {
        self.z@
    }

    /// Tables supplied by the caller, one permutation per axis.
    pub fn from_tables(x: Vec<u8>, y: Vec<u8>, z: Vec<u8>) -> (t: PerlinTables)
        requires
            is_permutation_256(x@),
            is_permutation_256(y@),
            is_permutation_256(z@),
        ensures
            t.wf(),
            t.x_table() == x@,
            t.y_table() == y@,
            t.z_table() == z@,
    {
        PerlinTables { x, y, z }
    }

    /// Three freshly shuffled tables.
    pub fn new() -> (t: PerlinTables)
        ensures
            t.wf(),
    {
        PerlinTables { x: permutation_table(), y: permutation_table(), z: permutation_table() }
    }

    /// The gradient slot of the lattice corner at offset (`di`, `dj`, `dk`)
    /// from the cell at integer coordinates (`i`, `j`, `k`): each coordinate
    /// is wrapped into its axis table and the three table values are combined
    /// with exclusive-or.
    pub fn lattice_index(&self, i: i32, j: i32, k: i32, di: u8, dj: u8, dk: u8) -> (r: u8)
        requires
            self.wf(),
        ensures
            r == self.x_table()[lattice_slot(i, di)] ^ self.y_table()[lattice_slot(j, dj)]
                ^ self.z_table()[lattice_slot(k, dk)],
    {
        let xi = wrap256(i, di);
        let yj = wrap256(j, dj);
        let zk = wrap256(k, dk);
        self.x[xi] ^ self.y[yj] ^ self.z[zk]
    }
}

} // verus!
