//! What holds of the engine on every cube: quarter turns have order four,
//! opposite turns cancel, a half turn is two quarter turns, and every
//! sequence of moves is undone by its inverse.

use vstd::prelude::*;
use crate::constants::{Face, corner_cycle_of, corner_twist_of, edge_cycle_of, edge_flip_of, reversed};
use crate::moves::{Direction, Move, inverse_of, reoriented, rotated};
use crate::notation::{face_of, parsed, played, played_of_joined, played_of_token, token_move, words};
use crate::state::{CubeState, all_below, is_permutation};

verus! {

/// `cycle` names four different slots out of `n`.
pub open spec fn is_cycle(cycle: Seq<usize>, n: int) -> bool {
    &&& cycle.len() == 4
    &&& cycle[0] < n && cycle[1] < n && cycle[2] < n && cycle[3] < n
    &&& cycle[0] != cycle[1] && cycle[0] != cycle[2] && cycle[0] != cycle[3]
    &&& cycle[1] != cycle[2] && cycle[1] != cycle[3] && cycle[2] != cycle[3]
}

/// `slot` is one of the four slots of `cycle`.
pub open spec fn on_cycle(cycle: Seq<usize>, slot: int) -> bool {
    slot == cycle[0] || slot == cycle[1] || slot == cycle[2] || slot == cycle[3]
}

/// `delta` stays below `modulus`, changes nothing off the cycle, and what it
/// adds in two neighbouring slots of the cycle sums to a multiple of
/// `modulus`.
pub open spec fn balanced(delta: Option<Seq<u8>>, cycle: Seq<usize>, n: int, modulus: int) -> bool {
    match delta {
        None => true,
        Some(d) => {
            &&& all_below(d, n, modulus)
            &&& forall|slot: int| 0 <= slot < n && !on_cycle(cycle, slot) ==> #[trigger] d[slot] == 0
            &&& (d[cycle[0] as int] + d[cycle[1] as int]) % modulus == 0
            &&& (d[cycle[1] as int] + d[cycle[2] as int]) % modulus == 0
            &&& (d[cycle[2] as int] + d[cycle[3] as int]) % modulus == 0
            &&& (d[cycle[3] as int] + d[cycle[0] as int]) % modulus == 0
        },
    }
}

/// One vector after a quarter turn: rotated along the cycle, then reoriented.
pub open spec fn turned(v: Seq<u8>, cycle: Seq<usize>, delta: Option<Seq<u8>>, modulus: int) -> Seq<u8> {
    reoriented(rotated(v, cycle), delta, modulus)
}

/// Every face's cycles name four different slots, in both directions, and
/// its deltas are balanced along them.
pub proof fn table_is_balanced(face: Face, counter: bool)
    ensures
        is_cycle(corner_cycle_of(face, counter), 8),
        is_cycle(edge_cycle_of(face, counter), 12),
        balanced(corner_twist_of(face), corner_cycle_of(face, counter), 8, 3),
        balanced(edge_flip_of(face), edge_cycle_of(face, counter), 12, 2),
        reversed(corner_cycle_of(face, counter)) == corner_cycle_of(face, !counter),
        reversed(edge_cycle_of(face, counter)) == edge_cycle_of(face, !counter),
{
    assert(reversed(corner_cycle_of(face, counter)) =~= corner_cycle_of(face, !counter));
    assert(reversed(edge_cycle_of(face, counter)) =~= edge_cycle_of(face, !counter));
}

/// The reversed cycle names the same four slots, its own reverse is the
/// cycle, and a delta balanced along one is balanced along the other.
pub proof fn reversed_is_balanced(cycle: Seq<usize>, delta: Option<Seq<u8>>, n: int, modulus: int)
    requires
        is_cycle(cycle, n),
        balanced(delta, cycle, n, modulus),
    ensures
        is_cycle(reversed(cycle), n),
        balanced(delta, reversed(cycle), n, modulus),
        reversed(reversed(cycle)) == cycle,
{
    let back = reversed(cycle);
    assert(reversed(back) =~= cycle);
    assert forall|slot: int| on_cycle(back, slot) == on_cycle(cycle, slot) by {}
}

/// A quarter turn keeps a vector's entries below the modulus.
pub proof fn turned_stays_below(v: Seq<u8>, cycle: Seq<usize>, delta: Option<Seq<u8>>, modulus: int)
    requires
        modulus == 2 || modulus == 3,
        is_cycle(cycle, v.len() as int),
        all_below(v, v.len() as int, modulus),
    ensures
        all_below(turned(v, cycle, delta, modulus), v.len() as int, modulus),
{
}

/// A walk along a cycle, then along the reversed cycle, with a balanced
/// delta added each time, gives the vector back.
pub proof fn turned_back_and_forth(v: Seq<u8>, cycle: Seq<usize>, delta: Option<Seq<u8>>, modulus: int)
    requires
        modulus == 2 || modulus == 3,
        is_cycle(cycle, v.len() as int),
        balanced(delta, cycle, v.len() as int, modulus),
        delta is Some ==> all_below(v, v.len() as int, modulus),
    ensures
        turned(turned(v, cycle, delta, modulus), reversed(cycle), delta, modulus) == v,
{
    let w = turned(v, cycle, delta, modulus);
    let x = turned(w, reversed(cycle), delta, modulus);
    assert forall|slot: int| 0 <= slot < v.len() implies x[slot] == v[slot] by {
        if !on_cycle(cycle, slot) {
        } else if slot == cycle[0] {
        } else if slot == cycle[1] {
        } else if slot == cycle[2] {
        } else {
        }
    }
    assert(x =~= v);
}

/// Two walks along a cycle give what two walks along the reversed cycle
/// give, where a balanced delta is added each time.
pub proof fn turned_twice_either_way(v: Seq<u8>, cycle: Seq<usize>, delta: Option<Seq<u8>>, modulus: int)
    requires
        modulus == 2 || modulus == 3,
        is_cycle(cycle, v.len() as int),
        balanced(delta, cycle, v.len() as int, modulus),
    ensures
        turned(turned(v, cycle, delta, modulus), cycle, delta, modulus)
            == turned(turned(v, reversed(cycle), delta, modulus), reversed(cycle), delta, modulus),
{
    let back = reversed(cycle);
    let x = turned(turned(v, cycle, delta, modulus), cycle, delta, modulus);
    let y = turned(turned(v, back, delta, modulus), back, delta, modulus);
    if let Some(d) = delta {
        // Both neighbours of a slot of the cycle cancel its delta, so they
        // carry the same delta.
        assert(d[cycle[0] as int] == d[cycle[2] as int]);
        assert(d[cycle[1] as int] == d[cycle[3] as int]);
    }
    assert forall|slot: int| 0 <= slot < v.len() implies x[slot] == y[slot] by {
        if !on_cycle(cycle, slot) {
        } else if slot == cycle[0] {
        } else if slot == cycle[1] {
        } else if slot == cycle[2] {
        } else {
        }
    }
    assert(x =~= y);
}

/// Four walks along a cycle, with a balanced delta added each time, give
/// the vector back.
pub proof fn turned_four_times(v: Seq<u8>, cycle: Seq<usize>, delta: Option<Seq<u8>>, modulus: int)
    requires
        modulus == 2 || modulus == 3,
        is_cycle(cycle, v.len() as int),
        balanced(delta, cycle, v.len() as int, modulus),
        delta is Some ==> all_below(v, v.len() as int, modulus),
    ensures
        turned(turned(turned(turned(v, cycle, delta, modulus), cycle, delta, modulus), cycle, delta, modulus), cycle, delta, modulus) == v,
{
    let n = v.len() as int;
    let back = reversed(cycle);
    let w = turned(v, back, delta, modulus);
    reversed_is_balanced(cycle, delta, n, modulus);
    // Two steps forward are two steps back, and each further step forward
    // undoes one of them.
    turned_twice_either_way(v, cycle, delta, modulus);
    if delta is Some {
        turned_stays_below(v, back, delta, modulus);
    }
    turned_back_and_forth(w, back, delta, modulus);
    turned_back_and_forth(v, back, delta, modulus);
}

/// A quarter turn keeps the orientations in range.
pub proof fn quarter_keeps_oriented(s: CubeState, face: Face, counter: bool)
    requires
        s.oriented(),
    ensures
        s.quarter(face, counter).oriented(),
{
}

/// A quarter turn of an oriented cube followed by the quarter turn of the
/// same face in the other direction gives the cube back.
pub proof fn quarter_then_opposite_cancels(s: CubeState, face: Face, counter: bool)
    requires
        s.oriented(),
    ensures
        s.quarter(face, counter).quarter(face, !counter) == s,
{
    table_is_balanced(face, counter);
    let corners = corner_cycle_of(face, counter);
    let edges = edge_cycle_of(face, counter);
    turned_back_and_forth(s.co, corners, corner_twist_of(face), 3);
    turned_back_and_forth(s.cp, corners, None, 3);
    turned_back_and_forth(s.eo, edges, edge_flip_of(face), 2);
    turned_back_and_forth(s.ep, edges, None, 2);
}

/// Four quarter turns of one face in one direction give an oriented cube
/// back.
pub proof fn quarter_has_order_four(s: CubeState, face: Face, counter: bool)
    requires
        s.oriented(),
    ensures
        s.quarter(face, counter).quarter(face, counter).quarter(face, counter).quarter(face, counter) == s,
{
    table_is_balanced(face, counter);
    let corners = corner_cycle_of(face, counter);
    let edges = edge_cycle_of(face, counter);
    turned_four_times(s.co, corners, corner_twist_of(face), 3);
    turned_four_times(s.cp, corners, None, 3);
    turned_four_times(s.eo, edges, edge_flip_of(face), 2);
    turned_four_times(s.ep, edges, None, 2);
}

/// Taking two quarter turns of a face gives the same cube in either
/// direction: a half turn has no direction.
pub proof fn half_turn_has_no_direction(s: CubeState, face: Face)
    requires
        s.shaped(),
    ensures
        s.quarter(face, false).quarter(face, false) == s.quarter(face, true).quarter(face, true),
{
    table_is_balanced(face, false);
    let corners = corner_cycle_of(face, false);
    let edges = edge_cycle_of(face, false);
    turned_twice_either_way(s.co, corners, corner_twist_of(face), 3);
    turned_twice_either_way(s.cp, corners, None, 3);
    turned_twice_either_way(s.eo, edges, edge_flip_of(face), 2);
    turned_twice_either_way(s.ep, edges, None, 2);
}

/// A walk along a cycle keeps a permutation a permutation.
pub proof fn rotated_is_permutation(p: Seq<u8>, cycle: Seq<usize>, n: int)
    requires
        is_permutation(p, n),
        is_cycle(cycle, n),
    ensures
        is_permutation(rotated(p, cycle), n),
{
}

/// A quarter turn keeps the invariant of the cube.
pub proof fn quarter_keeps_wf(s: CubeState, face: Face, counter: bool)
    requires
        s.wf(),
    ensures
        s.quarter(face, counter).wf(),
{
    table_is_balanced(face, counter);
    quarter_keeps_oriented(s, face, counter);
    rotated_is_permutation(s.cp, corner_cycle_of(face, counter), 8);
    rotated_is_permutation(s.ep, edge_cycle_of(face, counter), 12);
}

/// A move keeps the orientations in range, and keeps the invariant of the
/// cube.
pub proof fn moved_keeps_valid(s: CubeState, mov: Move)
    ensures
        s.oriented() ==> s.moved(mov).oriented(),
        s.wf() ==> s.moved(mov).wf(),
{
    let counter = mov.direction == Direction::CounterClockwise;
    let once = s.quarter(mov.face, counter);
    if s.oriented() {
        quarter_keeps_oriented(s, mov.face, counter);
        quarter_keeps_oriented(once, mov.face, counter);
    }
    if s.wf() {
        quarter_keeps_wf(s, mov.face, counter);
        quarter_keeps_wf(once, mov.face, counter);
    }
}

/// A sequence of moves keeps the orientations in range, and keeps the
/// invariant of the cube.
pub proof fn run_keeps_valid(s: CubeState, moves: Seq<Move>)
    ensures
        s.oriented() ==> s.run(moves).oriented(),
        s.wf() ==> s.run(moves).wf(),
    decreases moves.len(),
{
    if moves.len() > 0 {
        run_keeps_valid(s, moves.drop_last());
        moved_keeps_valid(s.run(moves.drop_last()), moves.last());
    }
}

/// A half turn of a face does what two clockwise quarter turns of it do.
pub proof fn half_turn_is_two_clockwise(s: CubeState, face: Face)
    ensures
        s.moved(Move { face, direction: Direction::Half })
            == s.moved(Move { face, direction: Direction::Clockwise })
                .moved(Move { face, direction: Direction::Clockwise }),
{
}

/// Any move applied four times gives an oriented cube back.
pub proof fn move_has_order_four(s: CubeState, mov: Move)
    requires
        s.oriented(),
    ensures
        s.moved(mov).moved(mov).moved(mov).moved(mov) == s,
{
    let face = mov.face;
    match mov.direction {
        Direction::Clockwise => quarter_has_order_four(s, face, false),
        Direction::CounterClockwise => quarter_has_order_four(s, face, true),
        Direction::Half => {
            // Eight quarter turns: four, and four again.
            quarter_has_order_four(s, face, false);
        },
    }
}

/// A move followed by its inverse gives an oriented cube back.
pub proof fn move_then_inverse_cancels(s: CubeState, mov: Move)
    requires
        s.oriented(),
    ensures
        s.moved(mov).moved(mov.inverse()) == s,
{
    let face = mov.face;
    match mov.direction {
        Direction::Clockwise => quarter_then_opposite_cancels(s, face, false),
        Direction::CounterClockwise => quarter_then_opposite_cancels(s, face, true),
        Direction::Half => quarter_has_order_four(s, face, false),
    }
}

/// Running a sequence that is made of two parts is running the first part
/// and then the second.
pub proof fn run_of_concatenation(s: CubeState, first: Seq<Move>, second: Seq<Move>)
    ensures
        s.run(first + second) == s.run(first).run(second),
    decreases second.len(),
{
    if second.len() == 0 {
        assert(first + second =~= first);
    } else {
        assert((first + second).drop_last() =~= first + second.drop_last());
        run_of_concatenation(s, first, second.drop_last());
    }
}

/// Running a sequence of moves and then its inverse gives an oriented cube
/// back.
pub proof fn run_then_inverse_restores(s: CubeState, moves: Seq<Move>)
    requires
        s.oriented(),
    ensures
        s.run(moves).run(inverse_of(moves)) == s,
    decreases moves.len(),
{
    if moves.len() > 0 {
        let before = moves.drop_last();
        let last = moves.last();
        let t = s.run(before);
        // The inverse starts by undoing the last move; what is left of it is
        // the inverse of the moves before.
        assert(inverse_of(moves) =~= seq![last.inverse()] + inverse_of(before));
        run_of_concatenation(s.run(moves), seq![last.inverse()], inverse_of(before));
        assert(seq![last.inverse()].drop_last() =~= Seq::<Move>::empty());
        assert(s.run(moves).run(seq![last.inverse()]) == t.moved(last).moved(last.inverse())) by {
            reveal_with_fuel(CubeState::run, 2);
        }
        run_keeps_valid(s, before);
        move_then_inverse_cancels(t, last);
        run_then_inverse_restores(s, before);
    }
}

/// The eighteen tokens of the notation: each of the six face letters, alone,
/// with an apostrophe, or with the digit 2.
pub open spec fn in_grammar(token: Seq<char>) -> bool {
    ||| token == seq!['R'] || token == seq!['R', '\''] || token == seq!['R', '2']
    ||| token == seq!['U'] || token == seq!['U', '\''] || token == seq!['U', '2']
    ||| token == seq!['F'] || token == seq!['F', '\''] || token == seq!['F', '2']
    ||| token == seq!['L'] || token == seq!['L', '\''] || token == seq!['L', '2']
    ||| token == seq!['D'] || token == seq!['D', '\''] || token == seq!['D', '2']
    ||| token == seq!['B'] || token == seq!['B', '\''] || token == seq!['B', '2']
}

/// The tokens that name a move are the eighteen tokens of the notation, and
/// no others.
pub proof fn moves_are_named_by_the_grammar(token: Seq<char>)
    ensures
        token_move(token) is Some <==> in_grammar(token),
{
    if token.len() == 1 {
        assert(token =~= seq![token[0]]);
    } else if token.len() == 2 {
        assert(token =~= seq![token[0], token[1]]);
    }
}

/// A text with a token that names no move names no sequence of moves, and
/// playing it gives no cube.
pub proof fn invalid_token_spoils_text(start: CubeState, s: Seq<char>, k: int)
    requires
        0 <= k < words(s).len(),
        token_move(words(s)[k]) is None,
    ensures
        parsed(s) is None,
        played(start, s) is None,
{
}

/// Playing the empty text gives the cube back.
pub proof fn empty_text_changes_nothing(s: CubeState)
    ensures
        played(s, Seq::empty()) == Some(s),
{
    assert(parsed(Seq::empty())->0 =~= Seq::<Move>::empty());
}

/// For every face letter, the text that names its clockwise turn four times
/// gives an oriented cube back.
pub proof fn four_turns_restore(s: CubeState, letter: char)
    requires
        s.oriented(),
        face_of(letter) is Some,
    ensures
        played(s, seq![letter, ' ', letter, ' ', letter, ' ', letter]) == Some(s),
{
    let turn = seq![letter];
    let mov = Move { face: face_of(letter)->0, direction: Direction::Clockwise };
    let two = turn + seq![' '] + turn;
    let three = turn + seq![' '] + two;
    let four = turn + seq![' '] + three;
    assert(four =~= seq![letter, ' ', letter, ' ', letter, ' ', letter]);
    let s1 = s.moved(mov);
    let s2 = s1.moved(mov);
    let s3 = s2.moved(mov);
    played_of_token(s, turn);
    played_of_token(s1, turn);
    played_of_token(s2, turn);
    played_of_token(s3, turn);
    played_of_joined(s2, turn, turn);
    played_of_joined(s1, turn, two);
    played_of_joined(s, turn, three);
    move_has_order_four(s, mov);
}

/// For every face letter, the text that names its clockwise turn and then
/// its counter-clockwise turn gives an oriented cube back.
pub proof fn turn_and_counter_turn_restore(s: CubeState, letter: char)
    requires
        s.oriented(),
        face_of(letter) is Some,
    ensures
        played(s, seq![letter, ' ', letter, '\'']) == Some(s),
{
    let turn = seq![letter];
    let back = seq![letter, '\''];
    let mov = Move { face: face_of(letter)->0, direction: Direction::Clockwise };
    assert(turn + seq![' '] + back =~= seq![letter, ' ', letter, '\'']);
    played_of_token(s, turn);
    played_of_token(s.moved(mov), back);
    played_of_joined(s, turn, back);
    move_then_inverse_cancels(s, mov);
}

/// For every face letter, the half-turn token does to any cube what the
/// clockwise token does when it is written twice.
pub proof fn half_turn_token_is_two_clockwise(s: CubeState, letter: char)
    requires
        face_of(letter) is Some,
    ensures
        played(s, seq![letter, '2']) == played(s, seq![letter, ' ', letter]),
{
    let turn = seq![letter];
    let half = seq![letter, '2'];
    let mov = Move { face: face_of(letter)->0, direction: Direction::Clockwise };
    assert(turn + seq![' '] + turn =~= seq![letter, ' ', letter]);
    played_of_token(s, half);
    played_of_token(s, turn);
    played_of_token(s.moved(mov), turn);
    played_of_joined(s, turn, turn);
}

/// For every face letter, the text that names its half turn twice gives an
/// oriented cube back.
pub proof fn two_half_turns_restore(s: CubeState, letter: char)
    requires
        s.oriented(),
        face_of(letter) is Some,
    ensures
        played(s, seq![letter, '2', ' ', letter, '2']) == Some(s),
{
    let half = seq![letter, '2'];
    let mov = Move { face: face_of(letter)->0, direction: Direction::Half };
    assert(half + seq![' '] + half =~= seq![letter, '2', ' ', letter, '2']);
    played_of_token(s, half);
    played_of_token(s.moved(mov), half);
    played_of_joined(s, half, half);
    move_then_inverse_cancels(s, mov);
}

/// The text `R R R R` gives every oriented cube back.
pub proof fn r_four_times_restores(s: CubeState)
    requires
        s.oriented(),
    ensures
        played(s, "R R R R"@) == Some(s),
{
    reveal_strlit("R R R R");
    assert("R R R R"@ =~= seq!['R', ' ', 'R', ' ', 'R', ' ', 'R']);
    four_turns_restore(s, 'R');
}

/// The text `R2 R2` gives every oriented cube back.
pub proof fn r2_twice_restores(s: CubeState)
    requires
        s.oriented(),
    ensures
        played(s, "R2 R2"@) == Some(s),
{
    reveal_strlit("R2 R2");
    assert("R2 R2"@ =~= seq!['R', '2', ' ', 'R', '2']);
    two_half_turns_restore(s, 'R');
}

} // verus!
