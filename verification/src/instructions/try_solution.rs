//! Trying a solution: a move sequence that solves the cube wins its prize.

use vstd::prelude::*;
use vstd::utf8::encode_utf8;
use crate::error::Error;
use crate::moves::is_cube_solved;
use crate::notation::{play, played};
use crate::state::{Address, Cube, CubeState, Winner};

verus! {

/// The accounts of an attempt, by what they hold.
#[derive(Debug, PartialEq, Eq)]
pub struct TrySolution {
    /// Who signs and pays
    pub cuber: Address,
    /// The record of that winner
    pub winner_data: Winner,
    /// The cube to be solved
    pub cube: Cube,
    /// The lamports that the cube account holds
    pub lamports: u64,
}

impl TrySolution {
    /// The accounts after moves that left the cube as `cube` without
    /// solving it: nothing but the cube has changed.
    pub open spec fn turned(self, cube: Cube) -> TrySolution {
        TrySolution {
            cuber: self.cuber,
            winner_data: self.winner_data,
            cube,
            lamports: self.lamports,
        }
    }

    /// The accounts after a win that left the cube as `cube`.
    pub open spec fn won(self, cube: Cube) -> TrySolution {
        TrySolution {
            cuber: self.cuber,
            winner_data: self.winner_data.after_win(self.cuber, self.lamports),
            cube,
            lamports: self.lamports,
        }
    }
}

/// What becomes of an attempt to solve the cube `start` with the move
/// sequence that the text `s` holds.
pub open spec fn attempt(start: CubeState, s: Seq<char>) -> Result<(), Error> {
    match played(start, s) {
        None => Err(Error::InvalidMove),
        Some(after) => if after == CubeState::solved() {
            Ok(())
        } else {
            Err(Error::UnsolvedCube)
        },
    }
}

/// Whether a winner's name fits the space that the winner's account
/// reserves for it. The length is counted in bytes of UTF-8.
pub open spec fn fitting(name: Seq<char>) -> Result<(), Error> {
    if encode_utf8(name).len() > Winner::MAX_NAME_LEN {
        Err(Error::WinnerNameTooLong)
    } else {
        Ok(())
    }
}

/// Checks that the winner's name fits the space that the winner's account
/// reserves for it.
pub fn validate(name: &String) -> (checked: Result<(), Error>)
    ensures
        checked == fitting(name@),
{
    if name.as_str().as_bytes().len() > Winner::MAX_NAME_LEN {
        return Err(Error::WinnerNameTooLong);
    }

    Ok(())
}

/// Applies the move sequence `move_string` to the cube. If that solves the
/// cube, the winner's record counts one more challenge and, as prize money,
/// the lamports that the cube account holds; the first win also records who
/// the winner is. Fails with [`Error::InvalidMove`] if one of the tokens
/// names no move, and then changes nothing. Fails with
/// [`Error::UnsolvedCube`] if the moves do not solve the cube: the moves
/// are then applied to the cube all the same, and nothing else changes.
pub fn handler(ctx: &mut TrySolution, move_string: String) -> (tried: Result<(), Error>)
    requires
        attempt(old(ctx).cube@, move_string@) is Ok ==> {
            &&& old(ctx).winner_data.challenges_won < u64::MAX
            &&& old(ctx).winner_data.cashed_prize + old(ctx).lamports <= u64::MAX
        },
    ensures
        tried == attempt(old(ctx).cube@, move_string@),
        match tried {
            Ok(_) => {
                &&& final(ctx).cube@ == CubeState::solved()
                &&& *final(ctx) == old(ctx).won(final(ctx).cube)
            },
            Err(Error::UnsolvedCube) => {
                &&& final(ctx).cube@ == played(old(ctx).cube@, move_string@)->0
                &&& *final(ctx) == old(ctx).turned(final(ctx).cube)
            },
            Err(_) => *final(ctx) == *old(ctx),
        },
        old(ctx).cube.wf() ==> final(ctx).cube.wf(),
{
    // Apply every move if all of them are valid
    match play(move_string.as_str(), &mut ctx.cube) {
        Ok(()) => {},
        Err(e) => {
            return Err(e);
        },
    }

    // If cube is solved this succeeds
    match is_cube_solved(&ctx.cube) {
        Ok(()) => {},
        Err(e) => {
            return Err(e);
        },
    }

    // Update winner account
    let winner = &mut ctx.winner_data;
    if winner.challenges_won == 0 {
        winner.winner = ctx.cuber;
    }
    winner.challenges_won += 1;
    winner.cashed_prize += ctx.lamports;

    Ok(())
}

} // verus!
