use coordgen::entry::checked_flat;
use coordgen::flat::{flatten_bonds, from_flat, to_flat};
use coordgen::validate;
use coordgen::Error;

#[test]
fn flatten_keeps_bond_order() {
    let bonds = [[0u16, 1, 1], [1, 2, 2], [2, 3, 3]];
    assert_eq!(flatten_bonds(&bonds), vec![0u16, 1, 1, 1, 2, 2, 2, 3, 3]);
    assert_eq!(flatten_bonds(&[]), Vec::<u16>::new());
}

#[test]
fn to_flat_copies_atoms_and_checks_nothing() {
    let input = to_flat(&[0u8, 200], &[[5, 5, 9]]);
    assert_eq!(input.atoms, vec![0u8, 200]);
    assert_eq!(input.bonds, vec![5u16, 5, 9]);
}

#[test]
fn from_flat_pairs_in_order() {
    let raw = [1i32, 2, 3, 4, 5, 6];
    assert_eq!(from_flat(&raw, 3), vec![(1, 2), (3, 4), (5, 6)]);
    let empty: [f32; 0] = [];
    assert!(from_flat(&empty, 0).is_empty());
}

#[test]
fn checked_matches_unchecked_on_valid_graph() {
    let atoms = [6u8, 6, 8, 1];
    let bonds = [[0u16, 1, 1], [1, 2, 2], [0, 3, 1]];
    let checked = checked_flat(&atoms, &bonds).unwrap();
    let unchecked = to_flat(&atoms, &bonds);
    assert_eq!(checked.atoms, unchecked.atoms);
    assert_eq!(checked.bonds, unchecked.bonds);
}

#[test]
fn checked_returns_the_first_fault() {
    let r = checked_flat(&[1u8, 1], &[[1, 0, 1], [0, 1, 2]]);
    assert!(matches!(r, Err(Error::ParallelBonds { bond1: 0, bond2: 1 })));
    let r = checked_flat(&[1u8, 0], &[[1, 0, 1]]);
    assert!(matches!(
        r,
        Err(Error::AtomicNum {
            provided: 0,
            atom_idx: 1
        })
    ));
}

#[test]
fn check_twice_gives_same_result() {
    let atoms = [1u8, 150, 200];
    let bonds = [[0u16, 1, 1]];
    let first = validate(&atoms, &bonds);
    let second = validate(&atoms, &bonds);
    assert_eq!(first, second);
    assert_eq!(atoms, [1u8, 150, 200]);
    assert_eq!(bonds, [[0u16, 1, 1]]);
    let atoms = [1u8, 1];
    let bonds = [[0u16, 1, 3]];
    assert_eq!(validate(&atoms, &bonds), Ok(()));
    assert_eq!(validate(&atoms, &bonds), Ok(()));
}

#[test]
fn edge_values() {
    // an empty graph is sound
    assert_eq!(validate(&[], &[]), Ok(()));
    // the bounds of the valid ranges
    assert_eq!(validate(&[1u8, 118], &[[0, 1, 3]]), Ok(()));
    assert_eq!(
        validate(&[119u8], &[]),
        Err(Error::AtomicNum {
            provided: 119,
            atom_idx: 0
        })
    );
    assert_eq!(
        validate(&[1u8, 1], &[[0, 1, 4]]),
        Err(Error::BondMult {
            provided: 4,
            bond_idx: 0
        })
    );
    assert_eq!(
        validate(&[1u8], &[[u16::MAX, 0, 1]]),
        Err(Error::AtomIdx {
            provided: u16::MAX,
            bond_idx: 0,
            atom: 0,
            max: 1
        })
    );
    // a bond from an atom to itself is not refused
    assert_eq!(validate(&[1u8], &[[0, 0, 1]]), Ok(()));
    // but two of them are parallel
    assert_eq!(
        validate(&[1u8], &[[0, 0, 1], [0, 0, 2]]),
        Err(Error::ParallelBonds { bond1: 0, bond2: 1 })
    );
}

#[test]
fn error_messages() {
    assert_eq!(
        Error::AtomIdx {
            provided: 10,
            bond_idx: 0,
            atom: 1,
            max: 1
        }
        .message(),
        "bond 0 contained atomic index 10 for coincident atom 1, but only 1 atoms exist"
    );
    assert_eq!(
        Error::BondMult {
            provided: 500,
            bond_idx: 2
        }
        .message(),
        "bond 2 contained multiplicity 500, but it must be 1, 2, or 3"
    );
    assert_eq!(
        Error::AtomicNum {
            provided: 150,
            atom_idx: 1
        }
        .message(),
        "atom 1 had an atomic number 150, no such atom currently exists"
    );
    assert_eq!(
        Error::ParallelBonds { bond1: 0, bond2: 3 }.message(),
        "bond 0 and bond 3 connect the same two atoms"
    );
    assert_eq!(
        Error::ParallelBonds {
            bond1: 1234567890,
            bond2: 10
        }
        .message(),
        "bond 1234567890 and bond 10 connect the same two atoms"
    );
}

#[test]
fn parallel_bond_hides_later_faults() {
    // the duplicate's own multiplicity, the bonds after it and the atomic
    // numbers do not change what is reported
    assert_eq!(
        validate(&[0u8, 1, 1], &[[0, 1, 1], [1, 2, 2], [2, 1, 9], [7, 7, 0]]),
        Err(Error::ParallelBonds { bond1: 1, bond2: 2 })
    );
}
