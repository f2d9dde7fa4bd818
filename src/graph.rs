//! The mathematical model of a molecular graph and of the order in which its
//! faults are reported.
//!
//! Atoms are known by their position in the atom slice and carry an atomic
//! number. A bond names two atom positions as `u16`, so at most 65536 atoms can
//! be bonded, and a multiplicity.
use vstd::prelude::*;

use crate::error::Error;

verus! {

/// The largest atomic number of a known element.
pub const MAX_ATOMIC_NUMBER: u8 = 118;

/// The largest bond multiplicity (a triple bond).
pub const MAX_MULTIPLICITY: u16 = 3;

/// An atomic number names a known element.
pub open spec fn valid_atomic_number(z: u8) -> bool {
    1 <= z <= MAX_ATOMIC_NUMBER
}

/// A bond is single, double or triple.
pub open spec fn valid_multiplicity(m: u16) -> bool {
    1 <= m <= MAX_MULTIPLICITY
}

/// Two bonds join the same unordered pair of atoms.
pub open spec fn same_pair(a: [u16; 3], b: [u16; 3]) -> bool {
    (a[0] == b[0] && a[1] == b[1]) || (a[0] == b[1] && a[1] == b[0])
}

/// Some bond before bond `i` joins the same two atoms as bond `i`.
pub open spec fn has_earlier_twin(bonds: Seq<[u16; 3]>, i: int) -> bool {
    exists|j: int| 0 <= j < i && same_pair(#[trigger] bonds[j], bonds[i])
}

/// The lowest index of a bond before bond `i` that joins the same two atoms.
pub open spec fn earliest_twin(bonds: Seq<[u16; 3]>, i: int) -> int
    recommends
        has_earlier_twin(bonds, i),
{
    choose|j: int|
        0 <= j < i && same_pair(bonds[j], bonds[i]) && forall|k: int|
            0 <= k < j ==> !same_pair(#[trigger] bonds[k], bonds[i])
}

/// The fault that bond `i` shows when every bond before it is sound: a parallel
/// bond first, then the first atom index, then the second, then the multiplicity.
pub open spec fn bond_fault(atoms: Seq<u8>, bonds: Seq<[u16; 3]>, i: int) -> Option<Error> {
    let b = bonds[i];
    if has_earlier_twin(bonds, i) {
        Some(Error::ParallelBonds { bond1: earliest_twin(bonds, i) as usize, bond2: i as usize })
    } else if b[0] >= atoms.len() {
        Some(Error::AtomIdx { provided: b[0], bond_idx: i as usize, atom: 0, max: atoms.len() as usize })
    } else if b[1] >= atoms.len() {
        Some(Error::AtomIdx { provided: b[1], bond_idx: i as usize, atom: 1, max: atoms.len() as usize })
    } else if !valid_multiplicity(b[2]) {
        Some(Error::BondMult { provided: b[2], bond_idx: i as usize })
    } else {
        None
    }
}

/// The first fault met when the bonds from index `i` on are scanned in order.
pub open spec fn first_bond_fault(atoms: Seq<u8>, bonds: Seq<[u16; 3]>, i: nat) -> Option<Error>
    decreases bonds.len() - i,
{
    if i >= bonds.len() {
        None
    } else {
        match bond_fault(atoms, bonds, i as int) {
            Some(e) => Some(e),
            None => first_bond_fault(atoms, bonds, i + 1),
        }
    }
}

/// The first invalid atomic number from index `i` on.
pub open spec fn first_atom_fault(atoms: Seq<u8>, i: nat) -> Option<Error>
    decreases atoms.len() - i,
{
    if i >= atoms.len() {
        None
    } else if !valid_atomic_number(atoms[i as int]) {
        Some(Error::AtomicNum { provided: atoms[i as int], atom_idx: i as usize })
    } else {
        first_atom_fault(atoms, i + 1)
    }
}

/// What checking a graph reports: the first faulty bond in bond order, and only
/// when every bond is sound, the first invalid atomic number.
pub open spec fn validation_outcome(atoms: Seq<u8>, bonds: Seq<[u16; 3]>) -> Result<(), Error> {
    match first_bond_fault(atoms, bonds, 0) {
        Some(e) => Err(e),
        None => match first_atom_fault(atoms, 0) {
            Some(e) => Err(e),
            None => Ok(()),
        },
    }
}

/// The four conditions that the coordinate engine relies on: every bond joins
/// atoms that exist, no two bonds join the same pair, every multiplicity is 1 to 3,
/// and every atomic number is that of a known element.
pub open spec fn well_formed(atoms: Seq<u8>, bonds: Seq<[u16; 3]>) -> bool {
    &&& forall|i: int| 0 <= i < bonds.len() ==> (#[trigger] bonds[i])[0] < atoms.len()
    &&& forall|i: int| 0 <= i < bonds.len() ==> (#[trigger] bonds[i])[1] < atoms.len()
    &&& forall|i: int, j: int|
        0 <= i < j < bonds.len() ==> !same_pair(#[trigger] bonds[i], #[trigger] bonds[j])
    &&& forall|i: int| 0 <= i < bonds.len() ==> valid_multiplicity((#[trigger] bonds[i])[2])
    &&& forall|i: int| 0 <= i < atoms.len() ==> valid_atomic_number(#[trigger] atoms[i])
}

/// Scanning the bonds from `s` on finds no fault exactly when no bond from `s` on
/// has one.
proof fn lemma_bond_scan_none(atoms: Seq<u8>, bonds: Seq<[u16; 3]>, s: nat)
    ensures
        first_bond_fault(atoms, bonds, s) is None <==> forall|k: int|
            s <= k < bonds.len() ==> #[trigger] bond_fault(atoms, bonds, k) is None,
    decreases bonds.len() - s,
{
    if s < bonds.len() {
        lemma_bond_scan_none(atoms, bonds, s + 1);
    }
}

/// Scanning the atoms from `s` on finds no fault exactly when every atomic number
/// from `s` on is valid.
proof fn lemma_atom_scan_none(atoms: Seq<u8>, s: nat)
    ensures
        first_atom_fault(atoms, s) is None <==> forall|k: int|
            s <= k < atoms.len() ==> valid_atomic_number(#[trigger] atoms[k]),
    decreases atoms.len() - s,
{
    if s < atoms.len() {
        lemma_atom_scan_none(atoms, s + 1);
    }
}

/// A graph passes the check exactly when it meets all four preconditions.
pub proof fn lemma_outcome_ok_iff_well_formed(atoms: Seq<u8>, bonds: Seq<[u16; 3]>)
    ensures
        validation_outcome(atoms, bonds) is Ok <==> well_formed(atoms, bonds),
{
    lemma_bond_scan_none(atoms, bonds, 0);
    lemma_atom_scan_none(atoms, 0);
    if forall|k: int| 0 <= k < bonds.len() ==> #[trigger] bond_fault(atoms, bonds, k) is None {
        assert forall|i: int, j: int| 0 <= i < j < bonds.len() implies !same_pair(
            #[trigger] bonds[i],
            #[trigger] bonds[j],
        ) by {
            assert(bond_fault(atoms, bonds, j) is None);
            if same_pair(bonds[i], bonds[j]) {
                assert(has_earlier_twin(bonds, j));
            }
        }
        assert forall|i: int| 0 <= i < bonds.len() implies (#[trigger] bonds[i])[0] < atoms.len()
            && bonds[i][1] < atoms.len() && valid_multiplicity(bonds[i][2]) by {
            assert(bond_fault(atoms, bonds, i) is None);
        }
    }
    if well_formed(atoms, bonds) {
        assert forall|k: int| 0 <= k < bonds.len() implies #[trigger] bond_fault(
            atoms,
            bonds,
            k,
        ) is None by {
            if has_earlier_twin(bonds, k) {
                let j = choose|j: int| 0 <= j < k && same_pair(#[trigger] bonds[j], bonds[k]);
                assert(!same_pair(bonds[j], bonds[k]));
            }
        }
    }
}

/// The scan passes over sound bonds: from `s` it reaches bond `i` unchanged.
proof fn lemma_bond_scan_skips(atoms: Seq<u8>, bonds: Seq<[u16; 3]>, s: nat, i: nat)
    requires
        s <= i <= bonds.len(),
        forall|k: int| s <= k < i ==> #[trigger] bond_fault(atoms, bonds, k) is None,
    ensures
        first_bond_fault(atoms, bonds, s) == first_bond_fault(atoms, bonds, i),
    decreases i - s,
{
    if s < i {
        lemma_bond_scan_skips(atoms, bonds, s + 1, i);
    }
}

/// A bond that joins the same two atoms as an earlier one is reported as a
/// parallel bond, paired with the earliest such bond, once every bond before it
/// is sound: whatever the order of its two atoms, its multiplicity, its atom
/// indices, and whatever follows it or is wrong with the atomic numbers.
pub proof fn lemma_parallel_bond_first(atoms: Seq<u8>, bonds: Seq<[u16; 3]>, i: nat)
    requires
        i < bonds.len(),
        forall|k: int| 0 <= k < i ==> #[trigger] bond_fault(atoms, bonds, k) is None,
        has_earlier_twin(bonds, i as int),
    ensures
        validation_outcome(atoms, bonds) == Err::<(), Error>(
            Error::ParallelBonds { bond1: earliest_twin(bonds, i as int) as usize, bond2: i as usize },
        ),
{
    lemma_bond_scan_skips(atoms, bonds, 0, i);
}

} // verus!
