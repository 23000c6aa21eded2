//! Looking at what a move sequence does to a cube, without touching any
//! account.

use vstd::prelude::*;
use crate::error::Error;
use crate::notation::{play, played};
use crate::state::{Cube, CubeState};

verus! {

/// The accounts of a peek, by what they hold.
#[derive(Clone, Copy, Debug, PartialEq, Eq)]
pub struct PeekCube {
    /// The cube to start from, if one was handed in
    pub cube: Option<Cube>,
}

impl PeekCube {
    /// The cube that a peek starts from: the one handed in, or the
    /// solved cube.
    pub open spec fn starting_state(self) -> CubeState {
        match self.cube {
            Some(cube) => cube@,
            None => CubeState::solved(),
        }
    }
}

/// Applies the move sequence `move_string` to the cube handed in, or to the
/// solved cube if there is none, and returns the cube that results. Fails
/// with [`Error::InvalidMove`] if one of the tokens names no move.
pub fn handler(ctx: &PeekCube, move_string: String) -> (peeked: Result<Cube, Error>)
    ensures
        match played(ctx.starting_state(), move_string@) {
            Some(after) => peeked is Ok && peeked->Ok_0@ == after,
            None => peeked == Err::<Cube, Error>(Error::InvalidMove),
        },
        (ctx.cube matches Some(given) ==> given.wf()) ==> (peeked matches Ok(cube) ==> cube.wf()),
{
    // Check if there is a cube, otherwise use a solved one
    let mut cube = match ctx.cube {
        Some(given) => given,
        None => Cube::solved(),
    };

    // Apply every move if all of them are valid
    match play(move_string.as_str(), &mut cube) {
        Ok(()) => Ok(cube),
        Err(e) => Err(e),
    }
}

} // verus!
