//! The engine: what a move does to a cube, how a sequence of moves is
//! folded over it, and the test for the solved configuration.

use vstd::prelude::*;
use crate::constants::{Face, corner_cycle, corner_cycle_of, corner_twist, corner_twist_of, edge_cycle, edge_cycle_of, edge_flip, edge_flip_of};
use crate::error::Error;
use crate::laws::quarter_keeps_wf;
use crate::state::{Cube, CubeState};

verus! {

/// How far, and which way, a move turns its face.
#[derive(Clone, Copy, PartialEq, Eq, Structural, Debug)]
pub enum Direction {
    /// A quarter turn clockwise.
    Clockwise,
    /// A quarter turn counter-clockwise.
    CounterClockwise,
    /// A half turn.
    Half,
}

/// One of the eighteen moves: a face and how it is turned.
#[derive(Clone, Copy, PartialEq, Eq, Structural, Debug)]
pub struct Move {
    pub face: Face,
    pub direction: Direction,
}

impl Direction {
    /// The direction that undoes this one: a half turn undoes itself.
    pub open spec fn opposite(self) -> Direction {
        match self {
            Direction::Clockwise => Direction::CounterClockwise,
            Direction::CounterClockwise => Direction::Clockwise,
            Direction::Half => Direction::Half,
        }
    }
}

impl Move {
    /// The move that undoes this one.
    pub open spec fn inverse(self) -> Move {
        Move { face: self.face, direction: self.direction.opposite() }
    }
}

/// The sequence that undoes `moves`: the inverses of its moves, from the
/// last to the first.
pub open spec fn inverse_of(moves: Seq<Move>) -> Seq<Move> {
    Seq::new(moves.len(), |k: int| moves[moves.len() - 1 - k].inverse())
}

/// The slot whose content a walk through `cycle` brings to `slot`.
pub open spec fn source_slot(cycle: Seq<usize>, slot: int) -> int {
    if slot == cycle[0] {
        cycle[3] as int
    } else if slot == cycle[1] {
        cycle[0] as int
    } else if slot == cycle[2] {
        cycle[1] as int
    } else if slot == cycle[3] {
        cycle[2] as int
    } else {
        slot
    }
}

/// `v` after its entries at the slots of `cycle` moved one step along the
/// cycle; all other entries stay.
pub open spec fn rotated(v: Seq<u8>, cycle: Seq<usize>) -> Seq<u8> {
    Seq::new(v.len(), |slot: int| v[source_slot(cycle, slot)])
}

/// `v` after `delta` was added to it slot by slot and each sum reduced
/// modulo `modulus`; `v` itself where the move has no delta.
pub open spec fn reoriented(v: Seq<u8>, delta: Option<Seq<u8>>, modulus: int) -> Seq<u8> {
    match delta {
        Some(d) => Seq::new(v.len(), |slot: int| ((v[slot] + d[slot]) % modulus) as u8),
        None => v,
    }
}

impl CubeState {
    /// The cube after a quarter turn of `face`, counter-clockwise if
    /// `counter`: pieces and their orientations move one step along the
    /// face's cycles, then the face's deltas are added to the orientations,
    /// modulo 3 for corners and modulo 2 for edges.
    pub open spec fn quarter(self, face: Face, counter: bool) -> CubeState {
        let corners = corner_cycle_of(face, counter);
        let edges = edge_cycle_of(face, counter);
        CubeState {
            co: reoriented(rotated(self.co, corners), corner_twist_of(face), 3),
            cp: rotated(self.cp, corners),
            eo: reoriented(rotated(self.eo, edges), edge_flip_of(face), 2),
            ep: rotated(self.ep, edges),
        }
    }

    /// The cube after one move. A half turn is two clockwise quarter turns.
    pub open spec fn moved(self, mov: Move) -> CubeState {
        match mov.direction {
            Direction::Clockwise => self.quarter(mov.face, false),
            Direction::CounterClockwise => self.quarter(mov.face, true),
            Direction::Half => self.quarter(mov.face, false).quarter(mov.face, false),
        }
    }

    /// The cube after the moves of `moves`, applied from first to last.
    pub open spec fn run(self, moves: Seq<Move>) -> CubeState
        decreases moves.len(),
    {
        if moves.len() == 0 {
            self
        } else {
            self.run(moves.drop_last()).moved(moves.last())
        }
    }
}

/// Moves the entries of `v` at the four slots of `cycle` one step along the
/// cycle.
fn rotate<const N: usize>(v: &mut [u8; N], cycle: &[usize; 4])
    requires
        forall|k: int| 0 <= k < 4 ==> #[trigger] cycle@[k] < N,
        forall|k: int, l: int| 0 <= k < l < 4 ==> cycle@[k] != cycle@[l],
    ensures
        final(v)@ == rotated(old(v)@, cycle@),
{
    let last: u8 = v[cycle[3]];
    v[cycle[3]] = v[cycle[2]];
    v[cycle[2]] = v[cycle[1]];
    v[cycle[1]] = v[cycle[0]];
    v[cycle[0]] = last;
    assert(v@ =~= rotated(old(v)@, cycle@));
}

/// Adds `delta` to `v` slot by slot, reducing each sum modulo `modulus`.
fn reorient<const N: usize>(v: &mut [u8; N], delta: &[u8; N], modulus: u8)
    requires
        modulus > 0,
    ensures
        final(v)@ == reoriented(old(v)@, Some(delta@), modulus as int),
{
    let mut slot: usize = 0;
    while slot < N
        invariant
            slot <= N,
            modulus > 0,
            forall|i: int| 0 <= i < slot ==> v@[i] == ((old(v)@[i] + delta@[i]) % (modulus as int)) as u8,
            forall|i: int| slot <= i < N ==> v@[i] == old(v)@[i],
        decreases N - slot,
    {
        let sum: u16 = v[slot] as u16 + delta[slot] as u16;
        v[slot] = (sum % (modulus as u16)) as u8;
        slot += 1;
    }
    assert(v@ =~= reoriented(old(v)@, Some(delta@), modulus as int));
}

/// Turns `face` of `cube` by a quarter, counter-clockwise if `counter`.
pub fn quarter_turn(face: Face, counter: bool, cube: &mut Cube)
    ensures
        final(cube)@ == old(cube)@.quarter(face, counter),
        old(cube).wf() ==> final(cube).wf(),
{
    proof {
        if cube.wf() {
            quarter_keeps_wf(cube@, face, counter);
        }
    }
    let corners = corner_cycle(face, counter);
    let edges = edge_cycle(face, counter);
    rotate(&mut cube.cp, &corners);
    rotate(&mut cube.co, &corners);
    rotate(&mut cube.ep, &edges);
    rotate(&mut cube.eo, &edges);
    match corner_twist(face) {
        Some(delta) => reorient(&mut cube.co, &delta, 3),
        None => {},
    }
    match edge_flip(face) {
        Some(delta) => reorient(&mut cube.eo, &delta, 2),
        None => {},
    }
}

/// Applies one move to `cube`.
pub fn move_cube(mov: Move, cube: &mut Cube)
    ensures
        final(cube)@ == old(cube)@.moved(mov),
        old(cube).wf() ==> final(cube).wf(),
{
    match mov.direction {
        Direction::Clockwise => quarter_turn(mov.face, false, cube),
        Direction::CounterClockwise => quarter_turn(mov.face, true, cube),
        Direction::Half => {
            quarter_turn(mov.face, false, cube);
            quarter_turn(mov.face, false, cube);
        },
    }
}

/// Applies the moves of `moves` to `cube`, from first to last.
pub fn apply_moves(moves: &Vec<Move>, cube: &mut Cube)
    ensures
        final(cube)@ == old(cube)@.run(moves@),
        old(cube).wf() ==> final(cube).wf(),
{
    let mut done: usize = 0;
    while done < moves.len()
        invariant
            done <= moves.len(),
            old(cube).wf() ==> cube.wf(),
            cube@ == old(cube)@.run(moves@.take(done as int)),
        decreases moves.len() - done,
    {
        assert(moves@.take(done + 1).drop_last() =~= moves@.take(done as int));
        move_cube(moves[done], cube);
        done += 1;
    }
    assert(moves@.take(done as int) =~= moves@);
}

/// Succeeds if `cube` is in the solved configuration, and fails with
/// [`Error::UnsolvedCube`] if it is not.
pub fn is_cube_solved(cube: &Cube) -> (verdict: Result<(), Error>)
    ensures
        verdict is Ok <==> cube@ == CubeState::solved(),
        verdict is Err ==> verdict == Err::<(), Error>(Error::UnsolvedCube),
{
    let mut slot: usize = 0;
    while slot < 8
        invariant
            slot <= 8,
            forall|i: int| 0 <= i < slot ==> cube.co@[i] == 0 && cube.cp@[i] == i + 1,
        decreases 8 - slot,
    {
        if cube.co[slot] != 0 || cube.cp[slot] as usize != slot + 1 {
            return Err(Error::UnsolvedCube);
        }
        slot += 1;
    }
    let mut slot: usize = 0;
    while slot < 12
        invariant
            slot <= 12,
            forall|i: int| 0 <= i < 8 ==> cube.co@[i] == 0 && cube.cp@[i] == i + 1,
            forall|i: int| 0 <= i < slot ==> cube.eo@[i] == 0 && cube.ep@[i] == i + 1,
        decreases 12 - slot,
    {
        if cube.eo[slot] != 0 || cube.ep[slot] as usize != slot + 1 {
            return Err(Error::UnsolvedCube);
        }
        slot += 1;
    }
    assert(cube.co@ =~= CubeState::solved().co);
    assert(cube.cp@ =~= CubeState::solved().cp);
    assert(cube.eo@ =~= CubeState::solved().eo);
    assert(cube.ep@ =~= CubeState::solved().ep);
    Ok(())
}

} // verus!
