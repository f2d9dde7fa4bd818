//! The flat buffers exchanged with the coordinate engine.
use vstd::prelude::*;

use vstd::slice::slice_to_vec;

verus! {

/// The bonds laid end to end: bond `i` fills positions `3 * i`, `3 * i + 1` and
/// `3 * i + 2` with its first atom, its second atom and its multiplicity.
pub open spec fn flattened(bonds: Seq<[u16; 3]>) -> Seq<u16> {
    Seq::new(3 * bonds.len(), |p: int| bonds[p / 3][p % 3])
}

/// Interleaved values read two at a time: pair `i` is the values at `2 * i` and
/// `2 * i + 1`.
pub open spec fn paired<T>(raw: Seq<T>) -> Seq<(T, T)> {
    Seq::new(raw.len() / 2, |i: int| (raw[2 * i], raw[2 * i + 1]))
}

/// The input of the coordinate engine: the atomic numbers in atom order, and the
/// bonds as consecutive `(first, second, multiplicity)` triples.
pub struct FlatGraph {
    /// One atomic number per atom.
    pub atoms: Vec<u8>,
    /// Three values per bond.
    pub bonds: Vec<u16>,
}

impl View for FlatGraph {
    type V = (Seq<u8>, Seq<u16>);

    /// The two buffers' contents.
    open spec fn view(&self) -> (Seq<u8>, Seq<u16>) {
        (self.atoms@, self.bonds@)
    }
}

impl FlatGraph {
    /// The number of atoms the buffers describe.
    pub fn n_atoms(&self) -> (r: usize)
        ensures
            r == self.atoms@.len(),
    {
        self.atoms.len()
    }

    /// The number of bonds the buffers describe.
    pub fn n_bonds(&self) -> (r: usize)
        requires
            self.bonds@.len() % 3 == 0,
        ensures
            r == self.bonds@.len() / 3,
    {
        self.bonds.len() / 3
    }
}

/// The engine's input for a graph, as `to_flat` builds it.
pub open spec fn flat_input(atoms: Seq<u8>, bonds: Seq<[u16; 3]>) -> (Seq<u8>, Seq<u16>) {
    (atoms, flattened(bonds))
}

/// Lays the bonds out as one buffer of `3 * bonds.len()` values.
pub fn flatten_bonds(bonds: &[[u16; 3]]) -> (r: Vec<u16>)
    requires
        3 * bonds@.len() <= usize::MAX,
    ensures
        r@ == flattened(bonds@),
{
    let mut out: Vec<u16> = Vec::with_capacity(3 * bonds.len());
    let mut i: usize = 0;
    while i < bonds.len()
        invariant
            i <= bonds@.len(),
            out@ == flattened(bonds@.subrange(0, i as int)),
        decreases bonds.len() - i,
    {
        let b = bonds[i];
        out.push(b[0]);
        out.push(b[1]);
        out.push(b[2]);
        proof {
            let next = bonds@.subrange(0, i + 1);
            assert(next[i as int] == b);
            assert forall|p: int| 0 <= p < 3 * (i + 1) implies #[trigger] out@[p] == flattened(
                next,
            )[p] by {
                if p < 3 * i {
                    assert(bonds@.subrange(0, i as int)[p / 3] == next[p / 3]);
                }
            }
            assert(out@ =~= flattened(next));
        }
        i = i + 1;
    }
    proof {
        assert(bonds@.subrange(0, bonds@.len() as int) =~= bonds@);
    }
    out
}

/// Builds the engine's input: the atomic numbers copied in atom order, and the
/// bonds flattened. This checks nothing.
pub fn to_flat(atoms: &[u8], bonds: &[[u16; 3]]) -> (r: FlatGraph)
    requires
        3 * bonds@.len() <= usize::MAX,
    ensures
        r@ == flat_input(atoms@, bonds@),
{
    FlatGraph { atoms: slice_to_vec(atoms), bonds: flatten_bonds(bonds) }
}

/// Reads the engine's output, `2 * n` interleaved values, as `n` pairs in order.
pub fn from_flat<T: Copy>(raw: &[T], n: usize) -> (r: Vec<(T, T)>)
    requires
        raw@.len() == 2 * n,
    ensures
        r@ == paired(raw@),
        r@.len() == n,
{
    let len = raw.len();
    let mut out: Vec<(T, T)> = Vec::with_capacity(n);
    let mut i: usize = 0;
    while i < n
        invariant
            i <= n,
            len == raw@.len(),
            raw@.len() == 2 * n,
            out@.len() == i,
            forall|k: int| 0 <= k < i ==> #[trigger] out@[k] == (raw@[2 * k], raw@[2 * k + 1]),
        decreases n - i,
    {
        let pair = (raw[2 * i], raw[2 * i + 1]);
        out.push(pair);
        i = i + 1;
    }
    proof {
        assert(out@ =~= paired(raw@));
    }
    out
}

} // verus!
