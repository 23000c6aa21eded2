//! Face-turn notation: a move sequence is written as tokens separated by
//! whitespace, each token a face letter that may be followed by an
//! apostrophe (counter-clockwise) or by the digit 2 (half turn).

use vstd::prelude::*;
use crate::constants::Face;
use crate::error::Error;
use crate::laws::run_of_concatenation;
use crate::moves::{Direction, Move, apply_moves};
use crate::state::{Cube, CubeState};

verus! {

/// The characters that separate tokens: those with the Unicode property
/// `White_Space`.
pub open spec fn is_space(c: char) -> bool {
    let code = c as u32;
    ||| 0x09 <= code <= 0x0D
    ||| code == 0x20
    ||| code == 0x85
    ||| code == 0xA0
    ||| code == 0x1680
    ||| 0x2000 <= code <= 0x200A
    ||| code == 0x2028
    ||| code == 0x2029
    ||| code == 0x202F
    ||| code == 0x205F
    ||| code == 0x3000
}

/// Number of characters at the start of `s` before its first separator.
pub open spec fn word_len(s: Seq<char>) -> nat
    decreases s.len(),
{
    if s.len() == 0 || is_space(s[0]) {
        0
    } else {
        1 + word_len(s.drop_first())
    }
}

/// A word is no longer than the text it starts.
pub proof fn word_len_is_bounded(s: Seq<char>)
    ensures
        word_len(s) <= s.len(),
    decreases s.len(),
{
    if s.len() != 0 && !is_space(s[0]) {
        word_len_is_bounded(s.drop_first());
    }
}

/// The tokens of `s`: its maximal runs of characters that are no
/// separators, from left to right.
pub open spec fn words(s: Seq<char>) -> Seq<Seq<char>>
    decreases s.len(),
{
    if s.len() == 0 {
        Seq::empty()
    } else if is_space(s[0]) {
        words(s.drop_first())
    } else {
        let n = word_len(s) as int;
        proof {
            word_len_is_bounded(s);
        }
        seq![s.take(n)] + words(s.skip(n))
    }
}

/// The face that a letter names.
pub open spec fn face_of(c: char) -> Option<Face> {
    if c == 'R' {
        Some(Face::R)
    } else if c == 'U' {
        Some(Face::U)
    } else if c == 'F' {
        Some(Face::F)
    } else if c == 'L' {
        Some(Face::L)
    } else if c == 'D' {
        Some(Face::D)
    } else if c == 'B' {
        Some(Face::B)
    } else {
        None
    }
}

/// The direction that a modifier names.
pub open spec fn direction_of(c: char) -> Option<Direction> {
    if c == '\'' {
        Some(Direction::CounterClockwise)
    } else if c == '2' {
        Some(Direction::Half)
    } else {
        None
    }
}

/// The move that a token names: a face letter alone is a clockwise quarter
/// turn, a face letter and a modifier the turn that the modifier names.
/// Every other token names no move.
pub open spec fn token_move(token: Seq<char>) -> Option<Move> {
    if token.len() == 1 {
        match face_of(token[0]) {
            Some(face) => Some(Move { face, direction: Direction::Clockwise }),
            None => None,
        }
    } else if token.len() == 2 {
        match (face_of(token[0]), direction_of(token[1])) {
            (Some(face), Some(direction)) => Some(Move { face, direction }),
            _ => None,
        }
    } else {
        None
    }
}

/// The moves that `tokens` name, if every one of them names a move.
pub open spec fn moves_of(tokens: Seq<Seq<char>>) -> Option<Seq<Move>> {
    if forall|k: int| 0 <= k < tokens.len() ==> (#[trigger] token_move(tokens[k])) is Some {
        Some(Seq::new(tokens.len(), |k: int| token_move(tokens[k])->0))
    } else {
        None
    }
}

/// The moves that the text `s` names, if each of its tokens names a move.
pub open spec fn parsed(s: Seq<char>) -> Option<Seq<Move>> {
    moves_of(words(s))
}

/// The cube that `start` becomes when the moves that the text `s` names are
/// applied to it from left to right; `None` if a token of `s` names no move.
pub open spec fn played(start: CubeState, s: Seq<char>) -> Option<CubeState> {
    match parsed(s) {
        Some(moves) => Some(start.run(moves)),
        None => None,
    }
}

/// Tells whether `c` separates tokens.
pub fn is_whitespace(c: char) -> (b: bool)
    ensures
        b == is_space(c),
{
    let code: u32 = c as u32;
    (0x09 <= code && code <= 0x0D) || code == 0x20 || code == 0x85 || code == 0xA0
        || code == 0x1680 || (0x2000 <= code && code <= 0x200A) || code == 0x2028
        || code == 0x2029 || code == 0x202F || code == 0x205F || code == 0x3000
}

/// The characters of `s`, one by one.
fn chars_of(s: &str) -> (chars: Vec<char>)
    ensures
        chars@ == s@,
{
    let mut chars: Vec<char> = Vec::new();
    for c in it: s.chars()
        invariant
            it.seq() == s@,
            chars@ == s@.take(it.index()),
    {
        chars.push(c);
        assert(s@.take(it.index() + 1) =~= s@.take(it.index()).push(c));
    }
    assert(s@.take(s@.len() as int) =~= s@);
    chars
}

/// Looks up the face that a letter names.
fn face_named(c: char) -> (face: Option<Face>)
    ensures
        face == face_of(c),
{
    if c == 'R' {
        Some(Face::R)
    } else if c == 'U' {
        Some(Face::U)
    } else if c == 'F' {
        Some(Face::F)
    } else if c == 'L' {
        Some(Face::L)
    } else if c == 'D' {
        Some(Face::D)
    } else if c == 'B' {
        Some(Face::B)
    } else {
        None
    }
}

/// Reads the token that `chars` holds from `from` up to `to`.
fn read_token(chars: &Vec<char>, from: usize, to: usize) -> (mov: Option<Move>)
    requires
        from <= to <= chars.len(),
    ensures
        mov == token_move(chars@.subrange(from as int, to as int)),
{
    let ghost token = chars@.subrange(from as int, to as int);
    if to - from == 1 {
        assert(token[0] == chars@[from as int]);
        match face_named(chars[from]) {
            Some(face) => Some(Move { face, direction: Direction::Clockwise }),
            None => None,
        }
    } else if to - from == 2 {
        assert(token[0] == chars@[from as int]);
        assert(token[1] == chars@[from + 1]);
        let modifier = chars[from + 1];
        match face_named(chars[from]) {
            Some(face) => {
                if modifier == '\'' {
                    Some(Move { face, direction: Direction::CounterClockwise })
                } else if modifier == '2' {
                    Some(Move { face, direction: Direction::Half })
                } else {
                    None
                }
            },
            None => None,
        }
    } else {
        None
    }
}

/// A run of characters that are no separators, ended by a separator or by
/// the end of the text, is a word.
proof fn word_len_of_run(s: Seq<char>, from: int, to: int)
    requires
        0 <= from <= to <= s.len(),
        forall|k: int| from <= k < to ==> !is_space(#[trigger] s[k]),
        to == s.len() || is_space(s[to]),
    ensures
        word_len(s.skip(from)) == to - from,
    decreases to - from,
{
    let rest = s.skip(from);
    if from < to {
        assert(rest[0] == s[from]);
        assert(rest.drop_first() =~= s.skip(from + 1));
        word_len_of_run(s, from + 1, to);
    } else if to < s.len() {
        assert(rest[0] == s[to]);
    }
}

/// Reads a move sequence. Returns the moves that the tokens of `text` name,
/// in order, or fails with [`Error::InvalidMove`] if one of the tokens
/// names no move.
pub fn parse_moves(text: &str) -> (moves: Result<Vec<Move>, Error>)
    ensures
        match parsed(text@) {
            Some(named) => moves is Ok && moves->Ok_0@ == named,
            None => moves == Err::<Vec<Move>, Error>(Error::InvalidMove),
        },
{
    let chars = chars_of(text);
    let mut moves: Vec<Move> = Vec::new();
    let ghost mut read: Seq<Seq<char>> = Seq::empty();
    let mut at: usize = 0;
    assert(chars@.skip(0) =~= chars@);
    assert(read + words(chars@) =~= words(chars@));
    while at < chars.len()
        invariant
            at <= chars.len(),
            chars@ == text@,
            words(chars@) == read + words(chars@.skip(at as int)),
            moves@.len() == read.len(),
            forall|k: int| 0 <= k < read.len() ==> token_move(#[trigger] read[k]) == Some(moves@[k]),
        decreases chars.len() - at,
    {
        let ghost rest = chars@.skip(at as int);
        assert(rest[0] == chars@[at as int]);
        if is_whitespace(chars[at]) {
            assert(rest.drop_first() =~= chars@.skip(at + 1));
            at += 1;
        } else {
            let mut end: usize = at + 1;
            while end < chars.len() && !is_whitespace(chars[end])
                invariant
                    at < end <= chars.len(),
                    forall|k: int| at <= k < end ==> !is_space(#[trigger] chars@[k]),
                decreases chars.len() - end,
            {
                end += 1;
            }
            proof {
                word_len_of_run(chars@, at as int, end as int);
                assert(rest.take(end - at) =~= chars@.subrange(at as int, end as int));
                assert(rest.skip(end - at) =~= chars@.skip(end as int));
            }
            let ghost token = chars@.subrange(at as int, end as int);
            assert(words(chars@) =~= read.push(token) + words(chars@.skip(end as int)));
            match read_token(&chars, at, end) {
                Some(mov) => {
                    moves.push(mov);
                    proof {
                        read = read.push(token);
                    }
                },
                None => {
                    assert(words(chars@)[read.len() as int] == token);
                    return Err(Error::InvalidMove);
                },
            }
            at = end;
        }
    }
    proof {
        assert(chars@.skip(at as int) =~= Seq::<char>::empty());
        assert(words(chars@) =~= read);
        assert(moves@ =~= moves_of(read)->0);
    }
    Ok(moves)
}

/// Applies the move sequence that `text` holds to `cube`. Fails with
/// [`Error::InvalidMove`] if one of the tokens names no move, and then
/// leaves `cube` as it was.
pub fn play(text: &str, cube: &mut Cube) -> (done: Result<(), Error>)
    ensures
        match played(old(cube)@, text@) {
            Some(after) => done is Ok && final(cube)@ == after,
            None => done == Err::<(), Error>(Error::InvalidMove) && *final(cube) == *old(cube),
        },
        old(cube).wf() ==> final(cube).wf(),
{
    match parse_moves(text) {
        Ok(moves) => {
            apply_moves(&moves, cube);
            Ok(())
        },
        Err(e) => Err(e),
    }
}

/// The word at the start of a text is a run of characters that are no
/// separators, ended by a separator or by the end of the text.
pub proof fn word_is_run(s: Seq<char>)
    ensures
        word_len(s) <= s.len(),
        forall|k: int| 0 <= k < word_len(s) ==> !is_space(#[trigger] s[k]),
        word_len(s) == s.len() || is_space(s[word_len(s) as int]),
    decreases s.len(),
{
    if s.len() != 0 && !is_space(s[0]) {
        let rest = s.drop_first();
        word_is_run(rest);
        assert forall|k: int| 0 <= k < word_len(s) implies !is_space(#[trigger] s[k]) by {
            if k > 0 {
                assert(s[k] == rest[k - 1]);
            }
        }
        if word_len(s) != s.len() {
            assert(s[word_len(s) as int] == rest[word_len(rest) as int]);
        }
    }
}

/// A text without separators that is not empty has one token: itself.
pub proof fn words_of_token(token: Seq<char>)
    requires
        token.len() > 0,
        forall|k: int| 0 <= k < token.len() ==> !is_space(#[trigger] token[k]),
    ensures
        words(token) == seq![token],
{
    word_len_of_run(token, 0, token.len() as int);
    assert(token.skip(0) =~= token);
    assert(token.take(token.len() as int) =~= token);
    assert(token.skip(token.len() as int) =~= Seq::<char>::empty());
    assert(!is_space(token[0]));
    assert(words(token) =~= seq![token]) by {
        reveal_with_fuel(words, 2);
    }
}

/// The tokens of two texts joined by a space are the tokens of the first
/// followed by the tokens of the second.
pub proof fn words_of_joined(a: Seq<char>, b: Seq<char>)
    ensures
        words(a + seq![' '] + b) == words(a) + words(b),
    decreases a.len(),
{
    let s = a + seq![' '] + b;
    if a.len() == 0 {
        assert(s[0] == ' ');
        assert(s.drop_first() =~= b);
        assert(words(a) + words(b) =~= words(b));
    } else if is_space(a[0]) {
        assert(s[0] == a[0]);
        assert(s.drop_first() =~= a.drop_first() + seq![' '] + b);
        words_of_joined(a.drop_first(), b);
    } else {
        let n = word_len(a) as int;
        word_is_run(a);
        assert(s[0] == a[0]);
        assert forall|k: int| 0 <= k < n implies !is_space(#[trigger] s[k]) by {
            assert(s[k] == a[k]);
        }
        if n == a.len() {
            assert(s[n] == ' ');
        } else {
            assert(s[n] == a[n]);
        }
        word_len_of_run(s, 0, n);
        assert(s.skip(0) =~= s);
        assert(s.take(n) =~= a.take(n));
        assert(s.skip(n) =~= a.skip(n) + seq![' '] + b);
        words_of_joined(a.skip(n), b);
        assert(words(s) =~= words(a) + words(b));
    }
}

/// The moves named by two runs of tokens, one after the other, are the moves
/// named by the first followed by those named by the second; they name
/// moves only if both runs do.
pub proof fn moves_of_concatenation(first: Seq<Seq<char>>, second: Seq<Seq<char>>)
    ensures
        moves_of(first + second) == match (moves_of(first), moves_of(second)) {
            (Some(x), Some(y)) => Some(x + y),
            _ => None,
        },
{
    let all = first + second;
    if moves_of(first) is None {
        let k = choose|k: int| 0 <= k < first.len() && !((#[trigger] token_move(first[k])) is Some);
        assert(all[k] == first[k]);
    } else if moves_of(second) is None {
        let k = choose|k: int| 0 <= k < second.len() && !((#[trigger] token_move(second[k])) is Some);
        assert(all[first.len() + k] == second[k]);
    } else {
        assert forall|k: int| 0 <= k < all.len() implies (#[trigger] token_move(all[k])) is Some by {
            if k < first.len() {
                assert(all[k] == first[k]);
            } else {
                assert(all[k] == second[k - first.len()]);
            }
        }
        assert(moves_of(all)->0 =~= moves_of(first)->0 + moves_of(second)->0);
    }
}

/// Playing a text that names one move makes that move.
pub proof fn played_of_token(start: CubeState, token: Seq<char>)
    requires
        token_move(token) is Some,
    ensures
        played(start, token) == Some(start.moved(token_move(token)->0)),
{
    words_of_token(token);
    let mov = token_move(token)->0;
    assert(moves_of(seq![token])->0 =~= seq![mov]);
    assert(seq![mov].drop_last() =~= Seq::<Move>::empty());
    assert(start.run(seq![mov]) == start.moved(mov)) by {
        reveal_with_fuel(CubeState::run, 2);
    }
}

/// Playing two texts joined by a space is playing the first and then, on
/// the cube that results, the second. If either names a token that is no
/// move, so does the whole.
pub proof fn played_of_joined(start: CubeState, a: Seq<char>, b: Seq<char>)
    ensures
        played(start, a + seq![' '] + b) == match played(start, a) {
            Some(between) => played(between, b),
            None => None,
        },
{
    words_of_joined(a, b);
    moves_of_concatenation(words(a), words(b));
    if parsed(a) is Some && parsed(b) is Some {
        run_of_concatenation(start, parsed(a)->0, parsed(b)->0);
    }
}

} // verus!
