//! A Rubik's Cube modelled as a finite state machine: a compact encoding of
//! the cube, the table of face turns, the engine that applies move sequences
//! written in face-turn notation, and the test for the solved configuration.
//! Around it, the three instructions of a program that lets sponsors put up
//! scrambled cubes with a prize for whoever solves them.

use vstd::prelude::*;
use crate::error::Error;
use crate::instructions::init_cube::InitCube;
use crate::instructions::peek_cube::PeekCube;
use crate::instructions::try_solution::TrySolution;
use crate::notation::played;
use crate::state::{Cube, CubeState};

pub mod constants;
pub mod error;
pub mod state;
pub mod moves;
pub mod notation;
pub mod laws;
pub mod instructions;

verus! {

/// Initializes a scrambled Cube with a prize for whoever solves it
/// and creates or updates the record of the sponsor that funds it.
/// Fails, and changes nothing, if the sponsor's name or description is too
/// long.
pub fn init_cube(
    ctx: &mut InitCube,
    sponsor_name: String,
    sponsor_desc: String,
    cube: Cube,
    prize: u64,
) -> (started: Result<(), Error>)
    requires
        instructions::init_cube::fitting(sponsor_name@, sponsor_desc@) is Ok ==> {
            &&& old(ctx).sponsor_data.challenges_created < u64::MAX
            &&& old(ctx).sponsor_data.total_fund + prize <= u64::MAX
        },
    ensures
        started == instructions::init_cube::fitting(sponsor_name@, sponsor_desc@),
        started is Ok ==> *final(ctx) == old(ctx).funded(sponsor_name, sponsor_desc, cube, prize),
        started is Err ==> *final(ctx) == *old(ctx),
{
    match instructions::init_cube::validate(&sponsor_name, &sponsor_desc) {
        Ok(()) => {},
        Err(e) => {
            return Err(e);
        },
    }
    instructions::init_cube::handler(ctx, sponsor_name, sponsor_desc, cube, prize);
    Ok(())
}

/// What becomes of an attempt by a winner called `name` to solve the cube
/// `start` with the move sequence that the text `s` holds: the name is
/// looked at first.
pub open spec fn trial(start: CubeState, s: Seq<char>, name: Seq<char>) -> Result<(), Error> {
    match instructions::try_solution::fitting(name) {
        Err(e) => Err(e),
        Ok(_) => instructions::try_solution::attempt(start, s),
    }
}

/// Tries a move sequence and if it solves the cube, cashes the prize.
/// Fails, and changes nothing, if the winner's name is too long or if a
/// token of the sequence names no move. Fails also if the sequence does not
/// solve the cube: its moves are then applied to the cube all the same, and
/// nothing else changes.
pub fn try_solution(ctx: &mut TrySolution, move_string: String, name: String) -> (tried: Result<
    (),
    Error,
>)
    requires
        trial(old(ctx).cube@, move_string@, name@) is Ok ==> {
            &&& old(ctx).winner_data.challenges_won < u64::MAX
            &&& old(ctx).winner_data.cashed_prize + old(ctx).lamports <= u64::MAX
        },
    ensures
        tried == trial(old(ctx).cube@, move_string@, name@),
        match tried {
            Ok(_) => {
                &&& final(ctx).cube@ == CubeState::solved()
                &&& *final(ctx) == old(ctx).won(final(ctx).cube)
            },
            Err(Error::UnsolvedCube) => {
                &&& final(ctx).cube@ == played(old(ctx).cube@, move_string@)->0
                &&& *final(ctx) == old(ctx).turned(final(ctx).cube)
            },
            Err(_) => *final(ctx) == *old(ctx),
        },
        old(ctx).cube.wf() ==> final(ctx).cube.wf(),
{
    match instructions::try_solution::validate(&name) {
        Ok(()) => {},
        Err(e) => {
            return Err(e);
        },
    }
    instructions::try_solution::handler(ctx, move_string)
}

/// Applies a sequence of moves to a cube, or to a solved cube if none is
/// handed in, to see how it looks like.
pub fn peek_cube(ctx: &PeekCube, move_string: String) -> (peeked: Result<Cube, Error>)
    ensures
        match played(ctx.starting_state(), move_string@) {
            Some(after) => peeked is Ok && peeked->Ok_0@ == after,
            None => peeked == Err::<Cube, Error>(Error::InvalidMove),
        },
        (ctx.cube matches Some(given) ==> given.wf()) ==> (peeked matches Ok(cube) ==> cube.wf()),
{
    instructions::peek_cube::handler(ctx, move_string)
}

} // verus!
