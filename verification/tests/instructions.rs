use cube::error::Error;
use cube::instructions;
use cube::instructions::init_cube::InitCube;
use cube::instructions::peek_cube::PeekCube;
use cube::instructions::try_solution::TrySolution;
use cube::state::{Cube, Sponsor, Winner};
use cube::{init_cube, peek_cube, try_solution};

fn new_sponsor() -> Sponsor {
    Sponsor {
        owner: [0; 32],
        name: String::new(),
        desc: String::new(),
        challenges_created: 0,
        total_fund: 0,
    }
}

fn new_winner() -> Winner {
    Winner { winner: [0; 32], challenges_won: 0, cashed_prize: 0, name: String::new() }
}

fn blank_cube() -> Cube {
    Cube { co: [0; 8], cp: [0; 8], eo: [0; 12], ep: [0; 12] }
}

fn new_challenge() -> InitCube {
    InitCube { sponsor: [5; 32], sponsor_data: new_sponsor(), cube: blank_cube() }
}

fn new_attempt(cube: Cube, lamports: u64) -> TrySolution {
    TrySolution { cuber: [7; 32], winner_data: new_winner(), cube, lamports }
}

fn peek(start: Option<Cube>, text: &str) -> Result<Cube, Error> {
    peek_cube(&PeekCube { cube: start }, text.to_string())
}

#[test]
fn empty_sequence_on_the_solved_cube_is_solved() {
    let cube = peek(None, "").unwrap();
    assert_eq!(cube, Cube::solved());
    assert_eq!(cube::moves::is_cube_solved(&cube), Ok(()));
    let mut ctx = new_attempt(Cube::solved(), 5);
    assert_eq!(instructions::try_solution::handler(&mut ctx, String::new()), Ok(()));
    assert_eq!(ctx.cube, Cube::solved());
    assert_eq!(ctx.winner_data.challenges_won, 1);
}

#[test]
fn r_u_r_counter_u_counter_does_not_solve_the_solved_cube() {
    let text = "R U R' U'";
    let cube = peek(None, text).unwrap();
    assert_ne!(cube, Cube::solved());
    assert_eq!(cube::moves::is_cube_solved(&cube), Err(Error::UnsolvedCube));
    let mut ctx = new_attempt(Cube::solved(), 5);
    assert_eq!(
        try_solution(&mut ctx, text.to_string(), "ann".to_string()),
        Err(Error::UnsolvedCube)
    );
    // The moves were applied; the record did not change.
    assert_eq!(ctx, new_attempt(cube, 5));
}

#[test]
fn moves_that_do_not_solve_stay_applied() {
    let mut ctx = new_attempt(Cube::solved(), 5);
    assert_eq!(
        instructions::try_solution::handler(&mut ctx, "U".to_string()),
        Err(Error::UnsolvedCube)
    );
    assert_eq!(
        ctx,
        TrySolution {
            cuber: [7; 32],
            winner_data: new_winner(),
            cube: Cube {
                co: [0; 8],
                cp: [4, 1, 2, 3, 5, 6, 7, 8],
                eo: [0; 12],
                ep: [4, 1, 2, 3, 5, 6, 7, 8, 9, 10, 11, 12],
            },
            lamports: 5,
        }
    );
    // The next attempt goes on from there.
    assert_eq!(try_solution(&mut ctx, "U'".to_string(), String::new()), Ok(()));
    assert_eq!(ctx.cube, Cube::solved());
    assert_eq!(ctx.winner_data.challenges_won, 1);
}

#[test]
fn peek_starts_from_the_cube_handed_in() {
    let scrambled = peek(None, "R U").unwrap();
    assert_eq!(scrambled.cp, [4, 1, 3, 6, 5, 7, 2, 8]);
    assert_eq!(peek(Some(scrambled), "U' R'"), Ok(Cube::solved()));
    assert_eq!(
        instructions::peek_cube::handler(&PeekCube { cube: Some(scrambled) }, "U'".to_string()),
        peek(None, "R")
    );
}

#[test]
fn peek_refuses_tokens_outside_the_grammar() {
    for text in ["X", "R3", "r", "R U R3"] {
        assert_eq!(peek(None, text), Err(Error::InvalidMove));
        assert_eq!(
            instructions::peek_cube::handler(
                &PeekCube { cube: Some(Cube::solved()) },
                text.to_string()
            ),
            Err(Error::InvalidMove)
        );
    }
}

#[test]
fn solution_wins_the_prize() {
    let scrambled = peek(None, "R U F2").unwrap();
    let mut ctx = new_attempt(scrambled, 1000);
    assert_eq!(try_solution(&mut ctx, "F2 U' R'".to_string(), "ann".to_string()), Ok(()));
    assert_eq!(
        ctx,
        TrySolution {
            cuber: [7; 32],
            winner_data: Winner {
                winner: [7; 32],
                challenges_won: 1,
                cashed_prize: 1000,
                name: String::new(),
            },
            cube: Cube::solved(),
            lamports: 1000,
        }
    );
    // A later win counts, and keeps who the winner is.
    let mut later = TrySolution {
        cuber: [9; 32],
        winner_data: ctx.winner_data,
        cube: scrambled,
        lamports: 234,
    };
    assert_eq!(instructions::try_solution::handler(&mut later, " F2  U' R' ".to_string()), Ok(()));
    assert_eq!(
        later.winner_data,
        Winner { winner: [7; 32], challenges_won: 2, cashed_prize: 1234, name: String::new() }
    );
    assert_eq!(later.cube, Cube::solved());
    assert_eq!(later.cuber, [9; 32]);
}

#[test]
fn failed_attempt_changes_the_cube_only_by_valid_moves() {
    let scrambled = peek(None, "R U F2").unwrap();
    let before = |cube: Cube| TrySolution {
        cuber: [7; 32],
        winner_data: Winner {
            winner: [3; 32],
            challenges_won: 4,
            cashed_prize: 50,
            name: "bob".to_string(),
        },
        cube,
        lamports: 5,
    };
    // Moves that do not solve the cube stay applied to it.
    for text in ["F2 U'", "", "F2 U' R' R", "L D2 B'"] {
        let mut ctx = before(scrambled);
        assert_eq!(
            instructions::try_solution::handler(&mut ctx, text.to_string()),
            Err(Error::UnsolvedCube)
        );
        assert_eq!(ctx, before(peek(Some(scrambled), text).unwrap()));
    }
    let mut ctx = before(scrambled);
    assert_eq!(
        instructions::try_solution::handler(&mut ctx, "F2".to_string()),
        Err(Error::UnsolvedCube)
    );
    assert_eq!(ctx.cube, peek(None, "R U").unwrap());
    // A token outside the grammar leaves the cube as it was, whatever
    // stands before it.
    for text in ["F2 U' R' X", "F2 U' R3", "r", "F2 X U' R'"] {
        let mut ctx = before(scrambled);
        assert_eq!(
            instructions::try_solution::handler(&mut ctx, text.to_string()),
            Err(Error::InvalidMove)
        );
        assert_eq!(ctx, before(scrambled));
    }
}

#[test]
fn invalid_move_comes_before_unsolved_cube() {
    let mut ctx = new_attempt(Cube::solved(), 5);
    assert_eq!(
        instructions::try_solution::handler(&mut ctx, "R R' X".to_string()),
        Err(Error::InvalidMove)
    );
    assert_eq!(ctx, new_attempt(Cube::solved(), 5));
    let mut ctx = new_attempt(peek(None, "R").unwrap(), 5);
    assert_eq!(
        instructions::try_solution::handler(&mut ctx, "X R'".to_string()),
        Err(Error::InvalidMove)
    );
    assert_eq!(ctx, new_attempt(peek(None, "R").unwrap(), 5));
    // Valid moves that leave the cube unsolved, then a bad token: still
    // nothing is applied.
    let mut ctx = new_attempt(Cube::solved(), 5);
    assert_eq!(
        instructions::try_solution::handler(&mut ctx, "R U X".to_string()),
        Err(Error::InvalidMove)
    );
    assert_eq!(ctx, new_attempt(Cube::solved(), 5));
}

#[test]
fn counters_at_their_limit_do_not_matter_to_a_failed_attempt() {
    let full = || TrySolution {
        cuber: [7; 32],
        winner_data: Winner {
            winner: [3; 32],
            challenges_won: u64::MAX,
            cashed_prize: u64::MAX,
            name: String::new(),
        },
        cube: peek(None, "R").unwrap(),
        lamports: u64::MAX,
    };
    let mut ctx = full();
    assert_eq!(
        try_solution(&mut ctx, "R".to_string(), String::new()),
        Err(Error::UnsolvedCube)
    );
    assert_eq!(ctx, TrySolution { cube: peek(None, "R2").unwrap(), ..full() });
    let mut ctx = full();
    assert_eq!(try_solution(&mut ctx, "R X".to_string(), String::new()), Err(Error::InvalidMove));
    assert_eq!(ctx, full());
}

#[test]
fn winner_name_is_checked_before_the_moves() {
    let long = "n".repeat(101);
    assert_eq!(instructions::try_solution::validate(&long), Err(Error::WinnerNameTooLong));
    assert_eq!(instructions::try_solution::validate(&"n".repeat(100)), Ok(()));
    assert_eq!(instructions::try_solution::validate(&String::new()), Ok(()));
    // 51 characters of two bytes each
    assert_eq!(instructions::try_solution::validate(&"é".repeat(51)), Err(Error::WinnerNameTooLong));
    assert_eq!(instructions::try_solution::validate(&"é".repeat(50)), Ok(()));
    let mut ctx = new_attempt(Cube::solved(), 5);
    assert_eq!(
        try_solution(&mut ctx, "X".to_string(), long.clone()),
        Err(Error::WinnerNameTooLong)
    );
    assert_eq!(try_solution(&mut ctx, String::new(), long.clone()), Err(Error::WinnerNameTooLong));
    // Moves that would turn the cube are not applied under a name that is
    // refused.
    assert_eq!(try_solution(&mut ctx, "U".to_string(), long), Err(Error::WinnerNameTooLong));
    assert_eq!(ctx, new_attempt(Cube::solved(), 5));
}

#[test]
fn sponsor_texts_are_measured_in_bytes() {
    let validate = instructions::init_cube::validate;
    assert_eq!(validate(&"n".repeat(30), &"d".repeat(70)), Ok(()));
    assert_eq!(validate(&String::new(), &String::new()), Ok(()));
    assert_eq!(validate(&"n".repeat(31), &"d".repeat(70)), Err(Error::SponsorNameTooLong));
    assert_eq!(validate(&"n".repeat(30), &"d".repeat(71)), Err(Error::SponsorDescTooLong));
    assert_eq!(validate(&"n".repeat(31), &"d".repeat(71)), Err(Error::SponsorNameTooLong));
    // 16 characters of two bytes each; 24 of three bytes each
    assert_eq!(validate(&"é".repeat(16), &String::new()), Err(Error::SponsorNameTooLong));
    assert_eq!(validate(&"é".repeat(15), &"€".repeat(24)), Err(Error::SponsorDescTooLong));
    assert_eq!(validate(&"é".repeat(15), &"€".repeat(23)), Ok(()));
}

#[test]
fn first_challenge_fills_in_the_sponsor() {
    let scramble = peek(None, "R U F2").unwrap();
    let mut ctx = new_challenge();
    assert_eq!(
        init_cube(&mut ctx, "acme".to_string(), "anvils".to_string(), scramble, 300),
        Ok(())
    );
    assert_eq!(
        ctx,
        InitCube {
            sponsor: [5; 32],
            sponsor_data: Sponsor {
                owner: [5; 32],
                name: "acme".to_string(),
                desc: "anvils".to_string(),
                challenges_created: 1,
                total_fund: 300,
            },
            cube: scramble,
        }
    );
    // A later challenge counts, and keeps who the sponsor is.
    let mut later = InitCube { sponsor: [6; 32], sponsor_data: ctx.sponsor_data, cube: blank_cube() };
    instructions::init_cube::handler(
        &mut later,
        "other".to_string(),
        "things".to_string(),
        Cube::solved(),
        45,
    );
    assert_eq!(
        later,
        InitCube {
            sponsor: [6; 32],
            sponsor_data: Sponsor {
                owner: [5; 32],
                name: "acme".to_string(),
                desc: "anvils".to_string(),
                challenges_created: 2,
                total_fund: 345,
            },
            cube: Cube::solved(),
        }
    );
}

#[test]
fn refused_challenge_changes_nothing() {
    let mut ctx = new_challenge();
    assert_eq!(
        init_cube(&mut ctx, "n".repeat(31), "anvils".to_string(), Cube::solved(), 300),
        Err(Error::SponsorNameTooLong)
    );
    assert_eq!(
        init_cube(&mut ctx, "acme".to_string(), "d".repeat(71), Cube::solved(), 300),
        Err(Error::SponsorDescTooLong)
    );
    assert_eq!(ctx, new_challenge());
    // Counters at their limit do not matter to a challenge that is refused.
    let full = || InitCube {
        sponsor: [5; 32],
        sponsor_data: Sponsor { challenges_created: u64::MAX, total_fund: u64::MAX, ..new_sponsor() },
        cube: blank_cube(),
    };
    let mut ctx = full();
    assert_eq!(
        init_cube(&mut ctx, "n".repeat(31), String::new(), Cube::solved(), u64::MAX),
        Err(Error::SponsorNameTooLong)
    );
    assert_eq!(ctx, full());
}

#[test]
fn any_bytes_are_accepted_as_a_scramble() {
    let odd = Cube { co: [9; 8], cp: [200; 8], eo: [3; 12], ep: [0; 12] };
    let mut ctx = new_challenge();
    instructions::init_cube::handler(&mut ctx, String::new(), String::new(), odd, 0);
    assert_eq!(ctx.cube, odd);
    assert_eq!(peek(Some(odd), ""), Ok(odd));
}

#[test]
fn every_error_has_its_message() {
    assert_eq!(Error::InvalidMove.message(), "Invalid move");
    assert_eq!(Error::UnsolvedCube.message(), "Cube is not solved");
    assert_eq!(Error::SponsorNameTooLong.message(), "The sponsor's name is too long!");
    assert_eq!(Error::SponsorDescTooLong.message(), "The sponsor's description is too long!");
    assert_eq!(Error::WinnerNameTooLong.message(), "The winner's name is too long!");
}
