//! The single-pass check of a graph against the engine's preconditions.
use vstd::prelude::*;

use std::collections::HashMap;

use crate::error::Error;
use crate::graph::{
    bond_fault, earliest_twin, first_atom_fault, first_bond_fault, has_earlier_twin,
    lemma_outcome_ok_iff_well_formed, same_pair, valid_atomic_number, validation_outcome,
    well_formed, MAX_ATOMIC_NUMBER, MAX_MULTIPLICITY,
};

verus! {

broadcast use vstd::std_specs::hash::group_hash_axioms;

/// An integer that identifies the unordered pair of atoms a bond joins: the
/// smaller index in the high half, the larger in the low half.
spec fn pair_key(b: [u16; 3]) -> u32 {
    if b[0] <= b[1] {
        (b[0] as u32 * 65536 + b[1] as u32) as u32
    } else {
        (b[1] as u32 * 65536 + b[0] as u32) as u32
    }
}

/// Two bonds have the same key exactly when they join the same pair of atoms.
proof fn lemma_pair_key_same_pair(a: [u16; 3], b: [u16; 3])
    ensures
        (pair_key(a) == pair_key(b)) <==> same_pair(a, b),
{
    let (la, ha) = if a[0] <= a[1] { (a[0] as int, a[1] as int) } else { (a[1] as int, a[0] as int) };
    let (lb, hb) = if b[0] <= b[1] { (b[0] as int, b[1] as int) } else { (b[1] as int, b[0] as int) };
    assert(la * 65536 + ha <= 65535 * 65536 + 65535) by (nonlinear_arith)
        requires 0 <= la <= 65535, 0 <= ha <= 65535;
    assert(lb * 65536 + hb <= 65535 * 65536 + 65535) by (nonlinear_arith)
        requires 0 <= lb <= 65535, 0 <= hb <= 65535;
    assert(pair_key(a) == la * 65536 + ha);
    assert(pair_key(b) == lb * 65536 + hb);
    if la * 65536 + ha == lb * 65536 + hb {
        assert(la == lb && ha == hb) by (nonlinear_arith)
            requires
                la * 65536 + ha == lb * 65536 + hb,
                0 <= ha < 65536,
                0 <= hb < 65536,
        ;
    }
}

fn pair_key_of(b: [u16; 3]) -> (r: u32)
    ensures
        r == pair_key(b),
{
    let (lo, hi) = if b[0] <= b[1] { (b[0], b[1]) } else { (b[1], b[0]) };
    assert(lo as u32 * 65536 + hi as u32 <= 65535 * 65536 + 65535) by (nonlinear_arith)
        requires lo <= 65535, hi <= 65535;
    lo as u32 * 65536 + hi as u32
}

/// `seen` maps the key of each of the first `i` bonds to that bond's index, and
/// holds no other key.
spec fn indexes_first_bonds(seen: Map<u32, usize>, bonds: Seq<[u16; 3]>, i: int) -> bool {
    &&& forall|k: int|
        0 <= k < i ==> #[trigger] seen.contains_key(pair_key(bonds[k])) && seen[pair_key(
            bonds[k],
        )] == k
    &&& forall|key: u32|
        #[trigger] seen.contains_key(key) ==> seen[key] < i && pair_key(bonds[seen[key] as int])
            == key
}

/// A key already present names the earliest earlier bond on the same pair.
proof fn lemma_found_twin(seen: Map<u32, usize>, bonds: Seq<[u16; 3]>, i: int)
    requires
        0 <= i < bonds.len(),
        indexes_first_bonds(seen, bonds, i),
        seen.contains_key(pair_key(bonds[i])),
    ensures
        has_earlier_twin(bonds, i),
        earliest_twin(bonds, i) == seen[pair_key(bonds[i])] as int,
{
    let key = pair_key(bonds[i]);
    let j = seen[key] as int;
    lemma_pair_key_same_pair(bonds[j], bonds[i]);
    assert forall|k: int| 0 <= k < j implies !same_pair(#[trigger] bonds[k], bonds[i]) by {
        lemma_pair_key_same_pair(bonds[k], bonds[i]);
        if same_pair(bonds[k], bonds[i]) {
            assert(seen.contains_key(pair_key(bonds[k])));
        }
    }
    assert(has_earlier_twin(bonds, i));
    let c = earliest_twin(bonds, i);
    if c < j {
    } else if c > j {
    }
}

/// A key not yet present means no earlier bond joins the same pair.
proof fn lemma_no_twin(seen: Map<u32, usize>, bonds: Seq<[u16; 3]>, i: usize)
    requires
        i < bonds.len(),
        indexes_first_bonds(seen, bonds, i as int),
        !seen.contains_key(pair_key(bonds[i as int])),
    ensures
        !has_earlier_twin(bonds, i as int),
        indexes_first_bonds(seen.insert(pair_key(bonds[i as int]), i), bonds, i + 1),
{
    if has_earlier_twin(bonds, i as int) {
        let j = choose|j: int| 0 <= j < i && same_pair(#[trigger] bonds[j], bonds[i as int]);
        lemma_pair_key_same_pair(bonds[j], bonds[i as int]);
        assert(seen.contains_key(pair_key(bonds[j])));
    }
    let after = seen.insert(pair_key(bonds[i as int]), i);
    assert forall|k: int| 0 <= k < i + 1 implies #[trigger] after.contains_key(pair_key(bonds[k]))
        && after[pair_key(bonds[k])] == k by {
        if k < i {
            assert(seen.contains_key(pair_key(bonds[k])));
        }
    }
}

/// Checks a graph against the engine's four preconditions and reports the first
/// fault: bonds are scanned in order, and within a bond a parallel bond comes
/// before an atom index out of range (first end, then second), which comes before
/// an invalid multiplicity. Atomic numbers are checked only once every bond is
/// sound, in atom order.
pub fn validate(atoms: &[u8], bonds: &[[u16; 3]]) -> (r: Result<(), Error>)
    ensures
        r == validation_outcome(atoms@, bonds@),
        r is Ok <==> well_formed(atoms@, bonds@),
{
    proof {
        lemma_outcome_ok_iff_well_formed(atoms@, bonds@);
    }
    let n_atoms = atoms.len();
    let mut seen: HashMap<u32, usize> = HashMap::new();
    let mut i: usize = 0;
    while i < bonds.len()
        invariant
            i <= bonds@.len(),
            n_atoms == atoms@.len(),
            forall|k: int| 0 <= k < i ==> #[trigger] bond_fault(atoms@, bonds@, k) is None,
            indexes_first_bonds(seen@, bonds@, i as int),
            first_bond_fault(atoms@, bonds@, 0) == first_bond_fault(atoms@, bonds@, i as nat),
        decreases bonds.len() - i,
    {
        let b = bonds[i];
        let key = pair_key_of(b);
        let ghost before = seen@;
        proof {
            assert(b == bonds@[i as int]);
        }
        match seen.insert(key, i) {
            Some(first) => {
                proof {
                    lemma_found_twin(before, bonds@, i as int);
                }
                return Err(Error::ParallelBonds { bond1: first, bond2: i });
            },
            None => {
                proof {
                    lemma_no_twin(before, bonds@, i);
                }
            },
        }
        if b[0] as usize >= n_atoms {
            return Err(Error::AtomIdx { provided: b[0], bond_idx: i, atom: 0, max: n_atoms });
        } else if b[1] as usize >= n_atoms {
            return Err(Error::AtomIdx { provided: b[1], bond_idx: i, atom: 1, max: n_atoms });
        } else if b[2] < 1 || b[2] > MAX_MULTIPLICITY {
            return Err(Error::BondMult { provided: b[2], bond_idx: i });
        }
        i = i + 1;
    }
    let mut a: usize = 0;
    while a < n_atoms
        invariant
            a <= atoms@.len(),
            n_atoms == atoms@.len(),
            first_bond_fault(atoms@, bonds@, 0) is None,
            forall|k: int| 0 <= k < bonds@.len() ==> #[trigger] bond_fault(atoms@, bonds@, k) is None,
            forall|k: int| 0 <= k < a ==> valid_atomic_number(#[trigger] atoms@[k]),
            first_atom_fault(atoms@, 0) == first_atom_fault(atoms@, a as nat),
        decreases n_atoms - a,
    {
        let z = atoms[a];
        if z < 1 || z > MAX_ATOMIC_NUMBER {
            return Err(Error::AtomicNum { provided: z, atom_idx: a });
        }
        a = a + 1;
    }
    Ok(())
}

} // verus!
