use vstd::prelude::*;

verus! {

/// A violated precondition of the coordinate engine, with the place where it was found.
#[derive(Debug, Clone, PartialEq, Eq, Hash, Structural)]
pub enum Error {
    /// An atom index in a bond is not below the number of atoms.
    AtomIdx {
        /// The atom index that was found.
        provided: u16,
        /// The index of the bond that holds it.
        bond_idx: usize,
        /// Which end of the bond holds it (0 or 1).
        atom: u8,
        /// The number of atoms, one more than the largest valid index.
        max: usize,
    },
    /// A bond multiplicity is not 1, 2 or 3.
    BondMult {
        /// The multiplicity that was found.
        provided: u16,
        /// The index of the bond.
        bond_idx: usize,
    },
    /// An atomic number is not that of a known element (1 to 118).
    AtomicNum {
        /// The atomic number that was found.
        provided: u8,
        /// The index of the atom.
        atom_idx: usize,
    },
    /// Two bonds join the same two atoms.
    ParallelBonds {
        /// The earlier of the two bonds.
        bond1: usize,
        /// The later of the two bonds.
        bond2: usize,
    },
}

/// The decimal digit `d` as a character.
pub open spec fn digit_char(d: nat) -> char {
    seq!['0', '1', '2', '3', '4', '5', '6', '7', '8', '9'][d as int]
}

/// The decimal representation of `n`, without leading zeros.
pub open spec fn decimal(n: nat) -> Seq<char>
    decreases n,
{
    if n < 10 {
        seq![digit_char(n)]
    } else {
        decimal(n / 10) + seq![digit_char(n % 10)]
    }
}

/// The sentence that describes an error.
pub open spec fn message(e: Error) -> Seq<char> {
    match e {
        Error::AtomIdx { provided, bond_idx, atom, max } => "bond "@ + decimal(bond_idx as nat)
            + " contained atomic index "@ + decimal(provided as nat) + " for coincident atom "@
            + decimal(atom as nat) + ", but only "@ + decimal(max as nat) + " atoms exist"@,
        Error::BondMult { provided, bond_idx } => "bond "@ + decimal(bond_idx as nat)
            + " contained multiplicity "@ + decimal(provided as nat)
            + ", but it must be 1, 2, or 3"@,
        Error::AtomicNum { provided, atom_idx } => "atom "@ + decimal(atom_idx as nat)
            + " had an atomic number "@ + decimal(provided as nat)
            + ", no such atom currently exists"@,
        Error::ParallelBonds { bond1, bond2 } => "bond "@ + decimal(bond1 as nat) + " and bond "@
            + decimal(bond2 as nat) + " connect the same two atoms"@,
    }
}

fn digit_str(d: usize) -> (r: &'static str)
    requires
        d < 10,
    ensures
        r@ == seq![digit_char(d as nat)],
{
    proof {
        reveal_strlit("0");
        reveal_strlit("1");
        reveal_strlit("2");
        reveal_strlit("3");
        reveal_strlit("4");
        reveal_strlit("5");
        reveal_strlit("6");
        reveal_strlit("7");
        reveal_strlit("8");
        reveal_strlit("9");
    }
    match d {
        0 => "0",
        1 => "1",
        2 => "2",
        3 => "3",
        4 => "4",
        5 => "5",
        6 => "6",
        7 => "7",
        8 => "8",
        _ => "9",
    }
}

fn push_decimal(s: &mut String, n: usize)
    ensures
        final(s)@ == old(s)@ + decimal(n as nat),
    decreases n,
{
    if n >= 10 {
        push_decimal(s, n / 10);
    }
    s.append(digit_str(n % 10));
    proof {
        assert(final(s)@ =~= old(s)@ + decimal(n as nat));
    }
}

impl Error {
    /// Describes the error in one sentence, with its numbers in decimal.
    pub fn message(&self) -> (r: String)
        ensures
            r@ == message(*self),
    {
        let mut s = String::new();
        match self {
            Error::AtomIdx { provided, bond_idx, atom, max } => {
                s.append("bond ");
                push_decimal(&mut s, *bond_idx);
                s.append(" contained atomic index ");
                push_decimal(&mut s, *provided as usize);
                s.append(" for coincident atom ");
                push_decimal(&mut s, *atom as usize);
                s.append(", but only ");
                push_decimal(&mut s, *max);
                s.append(" atoms exist");
            },
            Error::BondMult { provided, bond_idx } => {
                s.append("bond ");
                push_decimal(&mut s, *bond_idx);
                s.append(" contained multiplicity ");
                push_decimal(&mut s, *provided as usize);
                s.append(", but it must be 1, 2, or 3");
            },
            Error::AtomicNum { provided, atom_idx } => {
                s.append("atom ");
                push_decimal(&mut s, *atom_idx);
                s.append(" had an atomic number ");
                push_decimal(&mut s, *provided as usize);
                s.append(", no such atom currently exists");
            },
            Error::ParallelBonds { bond1, bond2 } => {
                s.append("bond ");
                push_decimal(&mut s, *bond1);
                s.append(" and bond ");
                push_decimal(&mut s, *bond2);
                s.append(" connect the same two atoms");
            },
        }
        proof {
            assert(s@ =~= message(*self));
        }
        s
    }
}

} // verus!
