//! Moves, outcomes, and the cyclic beats relation.

use vstd::prelude::*;

verus! {

/// One of the three moves of the game. The moves form a strict
/// three-cycle: each move beats exactly one other and loses to exactly
/// one other.
#[derive(Clone, Copy, Debug, PartialEq, Eq, Structural)]
pub enum MoveType {
    Rock,
    Paper,
    Scissors,
}

/// The result of one round, seen from the player's side.
#[derive(Clone, Copy, Debug, PartialEq, Eq, Structural)]
pub enum MoveOutcome {
    Win,
    Loss,
    Draw,
}

/// Base score of a move: Rock is worth 1, Paper 2, Scissors 3.
pub open spec fn move_value(m: MoveType) -> int {
    match m {
        MoveType::Rock => 1,
        MoveType::Paper => 2,
        MoveType::Scissors => 3,
    }
}

/// The move that defeats the argument.
pub open spec fn beating(m: MoveType) -> MoveType {
    match m {
        MoveType::Rock => MoveType::Paper,
        MoveType::Paper => MoveType::Scissors,
        MoveType::Scissors => MoveType::Rock,
    }
}

/// The move that the argument defeats.
pub open spec fn losing(m: MoveType) -> MoveType {
    match m {
        MoveType::Rock => MoveType::Scissors,
        MoveType::Paper => MoveType::Rock,
        MoveType::Scissors => MoveType::Paper,
    }
}

/// Score contribution of an outcome: a win is worth 6, a draw 3, a
/// loss 0.
pub open spec fn outcome_value(d: MoveOutcome) -> int {
    match d {
        MoveOutcome::Win => 6,
        MoveOutcome::Draw => 3,
        MoveOutcome::Loss => 0,
    }
}

impl MoveType {
    /// Base score of this move.
    pub fn get_value(self) -> (v: u8)
        ensures
            v == move_value(self),
    {
        match self {
            MoveType::Rock => 1,
            MoveType::Paper => 2,
            MoveType::Scissors => 3,
        }
    }

    /// The move that defeats this one.
    pub fn get_beating_move(self) -> (m: Self)
        ensures
            m == beating(self),
    {
        match self {
            MoveType::Rock => MoveType::Paper,
            MoveType::Paper => MoveType::Scissors,
            MoveType::Scissors => MoveType::Rock,
        }
    }

    /// The move that this one defeats.
    pub fn get_losing_move(self) -> (m: Self)
        ensures
            m == losing(self),
    {
        match self {
            MoveType::Rock => MoveType::Scissors,
            MoveType::Paper => MoveType::Rock,
            MoveType::Scissors => MoveType::Paper,
        }
    }
}

impl MoveOutcome {
    /// Score contribution of this outcome.
    pub fn get_value(self) -> (v: u8)
        ensures
            v == outcome_value(self),
    {
        match self {
            MoveOutcome::Win => 6,
            MoveOutcome::Draw => 3,
            MoveOutcome::Loss => 0,
        }
    }
}

/// Outcome of a round from the player's side: a draw when the moves
/// are equal, a win when the player's move beats the opponent's, a
/// loss otherwise.
pub open spec fn outcome_of(opp: MoveType, own: MoveType) -> MoveOutcome {
    if own == opp {
        MoveOutcome::Draw
    } else if own == beating(opp) {
        MoveOutcome::Win
    } else {
        MoveOutcome::Loss
    }
}

/// Classify one round from the opponent's move and the player's own
/// move.
pub fn play_move(prompt_move: MoveType, response_move: MoveType) -> (d: MoveOutcome)
    ensures
        d == outcome_of(prompt_move, response_move),
{
    if prompt_move == response_move {
        MoveOutcome::Draw
    } else if response_move == prompt_move.get_beating_move() {
        MoveOutcome::Win
    } else {
        MoveOutcome::Loss
    }
}

/// The move the player must make against `opp` to obtain the desired
/// outcome: the same move for a draw, the beating move for a win, the
/// losing move for a loss.
pub open spec fn resolve_for(opp: MoveType, desired: MoveOutcome) -> MoveType {
    match desired {
        MoveOutcome::Draw => opp,
        MoveOutcome::Win => beating(opp),
        MoveOutcome::Loss => losing(opp),
    }
}

/// Derive the player's move from the opponent's move and the desired
/// outcome. Replaying the derived move against the opponent yields
/// exactly the desired outcome.
pub fn resolve_move(opp: MoveType, desired: MoveOutcome) -> (own: MoveType)
    ensures
        own == resolve_for(opp, desired),
        outcome_of(opp, own) == desired,
{
    match desired {
        MoveOutcome::Draw => opp,
        MoveOutcome::Win => opp.get_beating_move(),
        MoveOutcome::Loss => opp.get_losing_move(),
    }
}

/// `beating` and `losing` are mutually inverse bijections of the
/// three-cycle: following one and then the other returns to the
/// starting move.
pub proof fn lemma_cycle_inverse(m: MoveType)
    ensures
        beating(losing(m)) == m,
        losing(beating(m)) == m,
{
}

/// Neither cycle map has a fixed point: no move beats or loses to
/// itself.
pub proof fn lemma_cycle_no_fixed_point(m: MoveType)
    ensures
        beating(m) != m,
        losing(m) != m,
{
}

/// The classification of a pair of moves is total and exclusive:
/// exactly one of "the moves draw", "the second beats the first", "the
/// first beats the second" holds.
pub proof fn lemma_outcome_exclusive(a: MoveType, b: MoveType)
    ensures
        (a == b) ^ (b == beating(a)) ^ (a == beating(b)),
        !((a == b) && (b == beating(a)) && (a == beating(b))),
{
}

/// Round trip for the desired-outcome reading: deriving the move that
/// realises a desired outcome and then reclassifying the pair of moves
/// gives back exactly that outcome.
pub proof fn lemma_resolve_round_trip(opp: MoveType, desired: MoveOutcome)
    ensures
        outcome_of(opp, resolve_for(opp, desired)) == desired,
{
}

} // verus!
