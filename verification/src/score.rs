//! Scoring of rounds.

use vstd::prelude::*;

use crate::game::move_value;
use crate::game::outcome_of;
use crate::game::outcome_value;
use crate::game::resolve_for;
use crate::game::MoveOutcome;
use crate::game::MoveType;
use crate::parse::line_views;
use crate::parse::lines_rounds_moves;
use crate::parse::lines_rounds_outcome;
use crate::parse::ParseError;

verus! {

/// Score of one round: the value of the player's own move plus the
/// value of the outcome it produces against the opponent's move.
pub open spec fn round_score(opp: MoveType, own: MoveType) -> int {
    move_value(own) + outcome_value(outcome_of(opp, own))
}

/// Total score of a list of rounds, each round an (opponent move,
/// own move) pair: the sum of the independent per-round scores.
pub open spec fn total_score(rounds: Seq<(MoveType, MoveType)>) -> int
    decreases rounds.len(),
{
    if rounds.len() == 0 {
        0
    } else {
        total_score(rounds.drop_last()) + round_score(rounds.last().0, rounds.last().1)
    }
}

/// Every round is worth between 1 and 9 points, so a total lies
/// between the number of rounds and nine times that number.
pub proof fn lemma_total_score_bounds(rounds: Seq<(MoveType, MoveType)>)
    ensures
        rounds.len() <= total_score(rounds) <= 9 * rounds.len(),
    decreases rounds.len(),
{
    if rounds.len() > 0 {
        lemma_total_score_bounds(rounds.drop_last());
    }
}

/// Removing one round subtracts exactly that round's score from the
/// total.
proof fn lemma_total_score_remove(rounds: Seq<(MoveType, MoveType)>, i: int)
    requires
        0 <= i < rounds.len(),
    ensures
        total_score(rounds) == total_score(rounds.remove(i)) + round_score(
            rounds[i].0,
            rounds[i].1,
        ),
    decreases rounds.len(),
{
    if i == rounds.len() - 1 {
        assert(rounds.remove(i) =~= rounds.drop_last());
    } else {
        assert(rounds.remove(i).drop_last() =~= rounds.drop_last().remove(i));
        lemma_total_score_remove(rounds.drop_last(), i);
    }
}

/// The total is a sum of independent per-round scores, so it splits
/// over concatenation of round lists.
pub proof fn lemma_total_score_concat(a: Seq<(MoveType, MoveType)>, b: Seq<(MoveType, MoveType)>)
    ensures
        total_score(a + b) == total_score(a) + total_score(b),
    decreases b.len(),
{
    if b.len() == 0 {
        assert(a + b =~= a);
    } else {
        assert((a + b).drop_last() =~= a + b.drop_last());
        lemma_total_score_concat(a, b.drop_last());
    }
}

/// Reordering rounds does not change the total: two round lists with
/// the same multiset of rounds have the same score.
pub proof fn lemma_total_score_permutation(
    a: Seq<(MoveType, MoveType)>,
    b: Seq<(MoveType, MoveType)>,
)
    requires
        a.to_multiset() == b.to_multiset(),
    ensures
        total_score(a) == total_score(b),
    decreases a.len(),
{
    broadcast use vstd::seq_lib::group_to_multiset_ensures;

    if a.len() == 0 {
        assert(a.to_multiset().len() == 0);
        assert(b.len() == b.to_multiset().len());
    } else {
        let x = a.last();
        assert(a[a.len() - 1] == x);
        assert(a.to_multiset().count(x) > 0);
        assert(b.contains(x));
        let j = choose|j: int| 0 <= j < b.len() && b[j] == x;
        assert(a.drop_last() =~= a.remove(a.len() - 1));
        lemma_total_score_remove(b, j);
        lemma_total_score_permutation(a.drop_last(), b.remove(j));
    }
}

/// Sum the scores of a list of rounds.
pub fn score_moves(moves: Vec<(MoveType, MoveType)>) -> (total: u64)
    requires
        9 * moves@.len() <= u64::MAX,
    ensures
        total == total_score(moves@),
{
    let mut total: u64 = 0;
    let mut i: usize = 0;
    while i < moves.len()
        invariant
            i <= moves@.len(),
            9 * moves@.len() <= u64::MAX,
            total == total_score(moves@.take(i as int)),
        decreases moves@.len() - i,
    {
        let (prompt_move, response_move) = moves[i];
        proof {
            lemma_total_score_bounds(moves@.take(i as int));
            assert(moves@.take(i + 1).drop_last() =~= moves@.take(i as int));
            assert(moves@.take(i + 1).last() == moves@[i as int]);
        }
        total = total + (response_move.get_value() + play_move_value(
            prompt_move,
            response_move,
        )) as u64;
        i = i + 1;
    }
    proof {
        assert(moves@.take(moves@.len() as int) =~= moves@);
    }
    total
}

/// Value of the outcome of one round, as a machine integer.
fn play_move_value(prompt_move: MoveType, response_move: MoveType) -> (v: u8)
    ensures
        v == outcome_value(outcome_of(prompt_move, response_move)),
{
    crate::game::play_move(prompt_move, response_move).get_value()
}

/// Turn (opponent move, desired outcome) rounds into (opponent move,
/// own move) rounds by picking the move that realises each desired
/// outcome.
pub open spec fn resolve_rounds(rounds: Seq<(MoveType, MoveOutcome)>) -> Seq<
    (MoveType, MoveType),
> {
    rounds.map_values(|round: (MoveType, MoveOutcome)| (round.0, resolve_for(round.0, round.1)))
}

/// Resolve every (opponent move, desired outcome) round to the move
/// that realises the desired outcome.
pub fn resolve_moves(rounds: Vec<(MoveType, MoveOutcome)>) -> (moves: Vec<(MoveType, MoveType)>)
    ensures
        moves@ == resolve_rounds(rounds@),
{
    let mut moves: Vec<(MoveType, MoveType)> = Vec::new();
    let mut i: usize = 0;
    while i < rounds.len()
        invariant
            i <= rounds@.len(),
            moves@ == resolve_rounds(rounds@.take(i as int)),
        decreases rounds@.len() - i,
    {
        let (opp, desired) = rounds[i];
        moves.push((opp, crate::game::resolve_move(opp, desired)));
        proof {
            assert(moves@ =~= resolve_rounds(rounds@.take(i + 1)));
        }
        i = i + 1;
    }
    proof {
        assert(rounds@.take(rounds@.len() as int) =~= rounds@);
    }
    moves
}

/// Result of the whole run under the move reading: the summed score of
/// the parsed rounds, or the first parse error.
pub open spec fn variant_1_result(lines: Seq<Seq<char>>) -> Result<int, ParseError> {
    match lines_rounds_moves(lines) {
        Ok(rounds) => Ok(total_score(rounds)),
        Err(e) => Err(e),
    }
}

/// Result of the whole run under the desired-outcome reading: the
/// summed score of the resolved rounds, or the first parse error.
pub open spec fn variant_2_result(lines: Seq<Seq<char>>) -> Result<int, ParseError> {
    match lines_rounds_outcome(lines) {
        Ok(rounds) => Ok(total_score(resolve_rounds(rounds))),
        Err(e) => Err(e),
    }
}

/// Score a whole input under the move reading: parse every line as an
/// (opponent move, own move) round and sum the round scores. The first
/// malformed line aborts the run with its error and no score.
pub fn variant_1_total(lines: &Vec<String>) -> (r: Result<u64, ParseError>)
    requires
        9 * lines@.len() <= u64::MAX,
    ensures
        (match r {
            Ok(total) => variant_1_result(line_views(lines@)) == Ok::<int, ParseError>(
                total as int,
            ),
            Err(e) => variant_1_result(line_views(lines@)) == Err::<int, ParseError>(e),
        }),
{
    let rounds = match crate::parse::parse_rounds_moves(lines) {
        Ok(rounds) => rounds,
        Err(e) => {
            return Err(e);
        },
    };
    proof {
        crate::parse::lemma_parsed_rounds_len(
            line_views(lines@),
            |line: Seq<char>| crate::parse::line_round_moves(line),
        );
    }
    Ok(score_moves(rounds))
}

/// Score a whole input under the desired-outcome reading: parse every
/// line as an (opponent move, desired outcome) round, resolve each to
/// the move that realises the desired outcome, and sum the round
/// scores. The first malformed line aborts the run with its error and
/// no score.
pub fn variant_2_total(lines: &Vec<String>) -> (r: Result<u64, ParseError>)
    requires
        9 * lines@.len() <= u64::MAX,
    ensures
        (match r {
            Ok(total) => variant_2_result(line_views(lines@)) == Ok::<int, ParseError>(
                total as int,
            ),
            Err(e) => variant_2_result(line_views(lines@)) == Err::<int, ParseError>(e),
        }),
{
    let rounds = match crate::parse::parse_rounds_outcome(lines) {
        Ok(rounds) => rounds,
        Err(e) => {
            return Err(e);
        },
    };
    proof {
        crate::parse::lemma_parsed_rounds_len(
            line_views(lines@),
            |line: Seq<char>| crate::parse::line_round_outcome(line),
        );
    }
    let moves = resolve_moves(rounds);
    Ok(score_moves(moves))
}

} // verus!
