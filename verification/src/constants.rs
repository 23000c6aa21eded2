//! The move table: for every face, the cycle of corner slots and of edge
//! slots that a quarter turn walks through, and what the turn adds to the
//! orientation of the pieces.
//!
//! Corner slots are numbered UBL UBR UFR UFL DFL DFR DBR DBL, edge slots
//! UB UR UF UL BL BR FR FL DF DR DB DL, both from zero.

use vstd::prelude::*;

verus! {

/// One of the six faces of the cube.
#[derive(Clone, Copy, PartialEq, Eq, Structural, Debug)]
pub enum Face {
    R,
    U,
    F,
    L,
    D,
    B,
}

/// The four slots of a cycle in the opposite order: walking it undoes a walk
/// through `cycle`.
pub open spec fn reversed(cycle: Seq<usize>) -> Seq<usize> {
    seq![cycle[3], cycle[2], cycle[1], cycle[0]]
}

/// The corner slots that a clockwise quarter turn of `face` walks through:
/// the piece in slot `k` of the cycle moves to slot `k + 1`, the last to the
/// first.
pub open spec fn clockwise_corner_cycle(face: Face) -> Seq<usize> {
    match face {
        Face::B => seq![7usize, 6, 1, 0],
        Face::D => seq![4usize, 5, 6, 7],
        Face::F => seq![2usize, 5, 4, 3],
        Face::L => seq![3usize, 4, 7, 0],
        Face::R => seq![6usize, 5, 2, 1],
        Face::U => seq![0usize, 1, 2, 3],
    }
}

/// The edge slots that a clockwise quarter turn of `face` walks through.
pub open spec fn clockwise_edge_cycle(face: Face) -> Seq<usize> {
    match face {
        Face::B => seq![4usize, 10, 5, 0],
        Face::D => seq![8usize, 9, 10, 11],
        Face::F => seq![2usize, 6, 8, 7],
        Face::L => seq![3usize, 7, 11, 4],
        Face::R => seq![1usize, 5, 9, 6],
        Face::U => seq![0usize, 1, 2, 3],
    }
}

/// The corner cycle of a quarter turn of `face` in either direction.
pub open spec fn corner_cycle_of(face: Face, counter: bool) -> Seq<usize> {
    if counter {
        reversed(clockwise_corner_cycle(face))
    } else {
        clockwise_corner_cycle(face)
    }
}

/// The edge cycle of a quarter turn of `face` in either direction.
pub open spec fn edge_cycle_of(face: Face, counter: bool) -> Seq<usize> {
    if counter {
        reversed(clockwise_edge_cycle(face))
    } else {
        clockwise_edge_cycle(face)
    }
}

/// What a quarter turn of `face`, in either direction, adds to the
/// orientation of the corner that arrives in each slot; `None` for the faces
/// that never twist a corner.
pub open spec fn corner_twist_of(face: Face) -> Option<Seq<u8>> {
    match face {
        Face::B => Some(seq![1u8, 2, 0, 0, 0, 0, 1, 2]),
        Face::F => Some(seq![0u8, 0, 1, 2, 1, 2, 0, 0]),
        Face::L => Some(seq![2u8, 0, 0, 1, 2, 0, 0, 1]),
        Face::R => Some(seq![0u8, 1, 2, 0, 0, 1, 2, 0]),
        Face::D | Face::U => None,
    }
}

/// What a quarter turn of `face`, in either direction, adds to the
/// orientation of the edge that arrives in each slot; `None` for the faces
/// that never flip an edge.
pub open spec fn edge_flip_of(face: Face) -> Option<Seq<u8>> {
    match face {
        Face::B => Some(seq![1u8, 0, 0, 0, 1, 1, 0, 0, 0, 0, 1, 0]),
        Face::F => Some(seq![0u8, 0, 1, 0, 0, 0, 1, 1, 1, 0, 0, 0]),
        Face::D | Face::L | Face::R | Face::U => None,
    }
}

/// Looks up the corner cycle of a quarter turn.
pub fn corner_cycle(face: Face, counter: bool) -> (cycle: [usize; 4])
    ensures
        cycle@ == corner_cycle_of(face, counter),
{
    let cycle: [usize; 4] = match (face, counter) {
        (Face::B, false) => [7, 6, 1, 0],
        (Face::B, true) => [0, 1, 6, 7],
        (Face::D, false) => [4, 5, 6, 7],
        (Face::D, true) => [7, 6, 5, 4],
        (Face::F, false) => [2, 5, 4, 3],
        (Face::F, true) => [3, 4, 5, 2],
        (Face::L, false) => [3, 4, 7, 0],
        (Face::L, true) => [0, 7, 4, 3],
        (Face::R, false) => [6, 5, 2, 1],
        (Face::R, true) => [1, 2, 5, 6],
        (Face::U, false) => [0, 1, 2, 3],
        (Face::U, true) => [3, 2, 1, 0],
    };
    assert(cycle@ =~= corner_cycle_of(face, counter));
    cycle
}

/// Looks up the edge cycle of a quarter turn.
pub fn edge_cycle(face: Face, counter: bool) -> (cycle: [usize; 4])
    ensures
        cycle@ == edge_cycle_of(face, counter),
{
    let cycle: [usize; 4] = match (face, counter) {
        (Face::B, false) => [4, 10, 5, 0],
        (Face::B, true) => [0, 5, 10, 4],
        (Face::D, false) => [8, 9, 10, 11],
        (Face::D, true) => [11, 10, 9, 8],
        (Face::F, false) => [2, 6, 8, 7],
        (Face::F, true) => [7, 8, 6, 2],
        (Face::L, false) => [3, 7, 11, 4],
        (Face::L, true) => [4, 11, 7, 3],
        (Face::R, false) => [1, 5, 9, 6],
        (Face::R, true) => [6, 9, 5, 1],
        (Face::U, false) => [0, 1, 2, 3],
        (Face::U, true) => [3, 2, 1, 0],
    };
    assert(cycle@ =~= edge_cycle_of(face, counter));
    cycle
}

/// Looks up what a quarter turn adds to the corner orientations.
pub fn corner_twist(face: Face) -> (twist: Option<[u8; 8]>)
    ensures
        match twist {
            Some(delta) => corner_twist_of(face) == Some(delta@),
            None => corner_twist_of(face) is None,
        },
{
    match face {
        Face::B => {
            let delta: [u8; 8] = [1, 2, 0, 0, 0, 0, 1, 2];
            assert(delta@ =~= corner_twist_of(face)->0);
            Some(delta)
        },
        Face::F => {
            let delta: [u8; 8] = [0, 0, 1, 2, 1, 2, 0, 0];
            assert(delta@ =~= corner_twist_of(face)->0);
            Some(delta)
        },
        Face::L => {
            let delta: [u8; 8] = [2, 0, 0, 1, 2, 0, 0, 1];
            assert(delta@ =~= corner_twist_of(face)->0);
            Some(delta)
        },
        Face::R => {
            let delta: [u8; 8] = [0, 1, 2, 0, 0, 1, 2, 0];
            assert(delta@ =~= corner_twist_of(face)->0);
            Some(delta)
        },
        Face::D | Face::U => None,
    }
}

/// Looks up what a quarter turn adds to the edge orientations.
pub fn edge_flip(face: Face) -> (flip: Option<[u8; 12]>)
    ensures
        match flip {
            Some(delta) => edge_flip_of(face) == Some(delta@),
            None => edge_flip_of(face) is None,
        },
{
    match face {
        Face::B => {
            let delta: [u8; 12] = [1, 0, 0, 0, 1, 1, 0, 0, 0, 0, 1, 0];
            assert(delta@ =~= edge_flip_of(face)->0);
            Some(delta)
        },
        Face::F => {
            let delta: [u8; 12] = [0, 0, 1, 0, 0, 0, 1, 1, 1, 0, 0, 0];
            assert(delta@ =~= edge_flip_of(face)->0);
            Some(delta)
        },
        Face::D | Face::L | Face::R | Face::U => None,
    }
}

} // verus!
