//! The checked path to the engine's input, and what it shares with the unchecked one.
use vstd::prelude::*;

use crate::error::Error;
use crate::flat::{flat_input, to_flat, FlatGraph};
use crate::graph::{lemma_outcome_ok_iff_well_formed, validation_outcome, well_formed};
use crate::validate::validate;

verus! {

/// What the checked path hands on: the first fault of the graph, or the engine's
/// input built from it.
pub open spec fn checked_input(atoms: Seq<u8>, bonds: Seq<[u16; 3]>) -> Result<
    (Seq<u8>, Seq<u16>),
    Error,
> {
    match validation_outcome(atoms, bonds) {
        Ok(_) => Ok(flat_input(atoms, bonds)),
        Err(e) => Err(e),
    }
}

/// Checks the graph and, only when it is sound, builds the engine's input. On a
/// fault the error is returned as the check found it and nothing is built.
pub fn checked_flat(atoms: &[u8], bonds: &[[u16; 3]]) -> (r: Result<FlatGraph, Error>)
    requires
        3 * bonds@.len() <= usize::MAX,
    ensures
        match r {
            Ok(g) => checked_input(atoms@, bonds@) == Ok::<(Seq<u8>, Seq<u16>), Error>(g@),
            Err(e) => checked_input(atoms@, bonds@) == Err::<(Seq<u8>, Seq<u16>), Error>(e),
        },
        r is Ok <==> well_formed(atoms@, bonds@),
{
    match validate(atoms, bonds) {
        Ok(()) => Ok(to_flat(atoms, bonds)),
        Err(e) => Err(e),
    }
}

/// On a graph that meets the engine's preconditions, the checked path succeeds and
/// hands the engine exactly the buffers that the unchecked path builds.
pub proof fn lemma_checked_matches_unchecked(atoms: Seq<u8>, bonds: Seq<[u16; 3]>)
    requires
        well_formed(atoms, bonds),
    ensures
        checked_input(atoms, bonds) == Ok::<(Seq<u8>, Seq<u16>), Error>(flat_input(atoms, bonds)),
{
    lemma_outcome_ok_iff_well_formed(atoms, bonds);
}

/// Checking depends on the contents of the graph alone: the same atoms and bonds
/// give the same outcome and the same engine input on every call.
pub proof fn lemma_check_repeatable(
    atoms1: Seq<u8>,
    bonds1: Seq<[u16; 3]>,
    atoms2: Seq<u8>,
    bonds2: Seq<[u16; 3]>,
)
    requires
        atoms1 == atoms2,
        bonds1 == bonds2,
    ensures
        validation_outcome(atoms1, bonds1) == validation_outcome(atoms2, bonds2),
        checked_input(atoms1, bonds1) == checked_input(atoms2, bonds2),
{
}

} // verus!
