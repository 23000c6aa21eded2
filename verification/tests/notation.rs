use cube::constants::Face;
use cube::error::Error;
use cube::moves::{Direction, Move};
use cube::notation::{is_whitespace, parse_moves, play};
use cube::state::Cube;

fn mv(face: Face, direction: Direction) -> Move {
    Move { face, direction }
}

#[test]
fn all_eighteen_tokens_are_read() {
    let faces = [
        ('R', Face::R),
        ('U', Face::U),
        ('F', Face::F),
        ('L', Face::L),
        ('D', Face::D),
        ('B', Face::B),
    ];
    for (letter, face) in faces {
        assert_eq!(parse_moves(&format!("{}", letter)), Ok(vec![mv(face, Direction::Clockwise)]));
        assert_eq!(
            parse_moves(&format!("{}'", letter)),
            Ok(vec![mv(face, Direction::CounterClockwise)])
        );
        assert_eq!(parse_moves(&format!("{}2", letter)), Ok(vec![mv(face, Direction::Half)]));
    }
}

#[test]
fn tokens_are_read_in_order() {
    assert_eq!(
        parse_moves("R U R' U' F2"),
        Ok(vec![
            mv(Face::R, Direction::Clockwise),
            mv(Face::U, Direction::Clockwise),
            mv(Face::R, Direction::CounterClockwise),
            mv(Face::U, Direction::CounterClockwise),
            mv(Face::F, Direction::Half),
        ])
    );
}

#[test]
fn empty_and_blank_texts_hold_no_moves() {
    assert_eq!(parse_moves(""), Ok(vec![]));
    assert_eq!(parse_moves(" "), Ok(vec![]));
    assert_eq!(parse_moves(" \t\r\n  "), Ok(vec![]));
}

#[test]
fn any_amount_of_whitespace_separates_tokens() {
    let expected = Ok(vec![mv(Face::L, Direction::Half), mv(Face::D, Direction::CounterClockwise)]);
    assert_eq!(parse_moves("L2 D'"), expected);
    assert_eq!(parse_moves("  L2   D'  "), expected);
    assert_eq!(parse_moves("L2\tD'"), expected);
    assert_eq!(parse_moves("\nL2\r\nD'\n"), expected);
    assert_eq!(parse_moves("L2\u{a0}D'"), expected);
    assert_eq!(parse_moves("\u{3000}L2\u{2003}\u{2028}D'\u{85}"), expected);
}

#[test]
fn tokens_outside_the_grammar_are_refused() {
    for text in [
        "X", "R3", "r", "u'", "R''", "R'2", "R2'", "RU", "'", "2", "'R", "2R", "R 2", "R '",
        "R2U", "R-", "R,", "M", "x", "R\u{2032}", "R\u{200b}", "\u{feff}R",
    ] {
        assert_eq!(parse_moves(text), Err(Error::InvalidMove), "{:?}", text);
    }
}

#[test]
fn one_bad_token_spoils_the_whole_text() {
    assert_eq!(parse_moves("X R U"), Err(Error::InvalidMove));
    assert_eq!(parse_moves("R X U"), Err(Error::InvalidMove));
    assert_eq!(parse_moves("R U X"), Err(Error::InvalidMove));
    assert_eq!(parse_moves("R U R3 U'"), Err(Error::InvalidMove));
}

#[test]
fn separators_are_the_white_space_characters() {
    for code in 0..=0x10ffffu32 {
        if let Some(c) = char::from_u32(code) {
            assert_eq!(is_whitespace(c), c.is_whitespace(), "U+{:04X}", code);
        }
    }
}

#[test]
fn tokens_are_split_as_std_splits_them() {
    let texts = [
        "",
        "R",
        " R ",
        "R  U\tF\nL\rD\u{b}B\u{c}R",
        "R\u{1680}U\u{2000}F\u{200a}L\u{2029}D\u{202f}B\u{205f}R",
        "\u{a0}\u{a0}R2\u{a0}",
        "R\u{200b}U",
        "R U' F2 L D' B2",
    ];
    for text in texts {
        let mut expected = Vec::new();
        let mut valid = true;
        for token in text.split_whitespace() {
            match parse_moves(token) {
                Ok(moves) => {
                    assert_eq!(moves.len(), 1);
                    expected.push(moves[0]);
                }
                Err(_) => valid = false,
            }
        }
        if valid {
            assert_eq!(parse_moves(text), Ok(expected), "{:?}", text);
        } else {
            assert_eq!(parse_moves(text), Err(Error::InvalidMove), "{:?}", text);
        }
    }
}

#[test]
fn play_applies_the_moves_of_the_text() {
    let mut cube = Cube::solved();
    assert_eq!(play("R", &mut cube), Ok(()));
    assert_eq!(cube.cp, [1, 3, 6, 4, 5, 7, 2, 8]);
    assert_eq!(cube.co, [0, 1, 2, 0, 0, 1, 2, 0]);
    assert_eq!(play("R'", &mut cube), Ok(()));
    assert_eq!(cube, Cube::solved());
}

#[test]
fn play_leaves_the_cube_alone_when_a_token_is_bad() {
    let mut cube = Cube::solved();
    assert_eq!(play("R U", &mut cube), Ok(()));
    let before = cube;
    assert_eq!(play("F L X D", &mut cube), Err(Error::InvalidMove));
    assert_eq!(cube, before);
    assert_eq!(play("r", &mut cube), Err(Error::InvalidMove));
    assert_eq!(cube, before);
}
