//! Parsing of input lines into rounds.

use vstd::prelude::*;

use crate::game::MoveOutcome;
use crate::game::MoveType;

verus! {

/// Why a line was rejected. Every error is fatal to the whole run:
/// there is no recovery or partial result.
#[derive(Clone, Copy, Debug, PartialEq, Eq, Structural)]
pub enum ParseError {
    /// The first character is not one of `A`, `B`, `C`.
    BadOpponentToken(char),
    /// The response character is not one of `X`, `Y`, `Z`.
    BadResponseToken(char),
    /// The line has fewer than three characters.
    LineTooShort,
}

/// Reading of the opponent token: `A` is Rock, `B` is Paper, `C` is
/// Scissors; anything else is rejected.
pub open spec fn opponent_token(c: char) -> Result<MoveType, ParseError> {
    if c == 'A' {
        Ok(MoveType::Rock)
    } else if c == 'B' {
        Ok(MoveType::Paper)
    } else if c == 'C' {
        Ok(MoveType::Scissors)
    } else {
        Err(ParseError::BadOpponentToken(c))
    }
}

/// Parse the opponent's move from its token character.
pub fn parse_opponent_char(c: char) -> (r: Result<MoveType, ParseError>)
    ensures
        r == opponent_token(c),
{
    if c == 'A' {
        Ok(MoveType::Rock)
    } else if c == 'B' {
        Ok(MoveType::Paper)
    } else if c == 'C' {
        Ok(MoveType::Scissors)
    } else {
        Err(ParseError::BadOpponentToken(c))
    }
}

/// Reading of the response token as a move: `X` is Rock, `Y` is Paper,
/// `Z` is Scissors; anything else is rejected.
pub open spec fn response_move_token(c: char) -> Result<MoveType, ParseError> {
    if c == 'X' {
        Ok(MoveType::Rock)
    } else if c == 'Y' {
        Ok(MoveType::Paper)
    } else if c == 'Z' {
        Ok(MoveType::Scissors)
    } else {
        Err(ParseError::BadResponseToken(c))
    }
}

/// Reading of the response token as a desired outcome: `X` is Loss,
/// `Y` is Draw, `Z` is Win; anything else is rejected.
pub open spec fn response_outcome_token(c: char) -> Result<MoveOutcome, ParseError> {
    if c == 'X' {
        Ok(MoveOutcome::Loss)
    } else if c == 'Y' {
        Ok(MoveOutcome::Draw)
    } else if c == 'Z' {
        Ok(MoveOutcome::Win)
    } else {
        Err(ParseError::BadResponseToken(c))
    }
}

/// Parse the player's own move from its token character.
pub fn parse_move_char(c: char) -> (r: Result<MoveType, ParseError>)
    ensures
        r == response_move_token(c),
{
    if c == 'X' {
        Ok(MoveType::Rock)
    } else if c == 'Y' {
        Ok(MoveType::Paper)
    } else if c == 'Z' {
        Ok(MoveType::Scissors)
    } else {
        Err(ParseError::BadResponseToken(c))
    }
}

/// Parse the desired outcome from its token character.
pub fn parse_outcome_char(c: char) -> (r: Result<MoveOutcome, ParseError>)
    ensures
        r == response_outcome_token(c),
{
    if c == 'X' {
        Ok(MoveOutcome::Loss)
    } else if c == 'Y' {
        Ok(MoveOutcome::Draw)
    } else if c == 'Z' {
        Ok(MoveOutcome::Win)
    } else {
        Err(ParseError::BadResponseToken(c))
    }
}

/// Parse of one line under the move reading: the first character gives
/// the opponent's move, the character at index 2 the player's own
/// move, and the rest of the line is ignored. A line shorter than
/// three characters is rejected.
pub open spec fn line_round_moves(line: Seq<char>) -> Result<(MoveType, MoveType), ParseError> {
    if line.len() < 3 {
        Err(ParseError::LineTooShort)
    } else {
        match opponent_token(line[0]) {
            Err(e) => Err(e),
            Ok(opp) => match response_move_token(line[2]) {
                Err(e) => Err(e),
                Ok(own) => Ok((opp, own)),
            },
        }
    }
}

/// Parse of one line under the desired-outcome reading.
pub open spec fn line_round_outcome(line: Seq<char>) -> Result<
    (MoveType, MoveOutcome),
    ParseError,
> {
    if line.len() < 3 {
        Err(ParseError::LineTooShort)
    } else {
        match opponent_token(line[0]) {
            Err(e) => Err(e),
            Ok(opp) => match response_outcome_token(line[2]) {
                Err(e) => Err(e),
                Ok(desired) => Ok((opp, desired)),
            },
        }
    }
}

/// Parse one line as an (opponent move, own move) round.
pub fn parse_line_moves(line: &str) -> (r: Result<(MoveType, MoveType), ParseError>)
    ensures
        r == line_round_moves(line@),
{
    if line.unicode_len() < 3 {
        return Err(ParseError::LineTooShort);
    }
    let opp = match parse_opponent_char(line.get_char(0)) {
        Ok(opp) => opp,
        Err(e) => {
            return Err(e);
        },
    };
    match parse_move_char(line.get_char(2)) {
        Ok(own) => Ok((opp, own)),
        Err(e) => Err(e),
    }
}

/// Parse one line as an (opponent move, desired outcome) round.
pub fn parse_line_outcome(line: &str) -> (r: Result<(MoveType, MoveOutcome), ParseError>)
    ensures
        r == line_round_outcome(line@),
{
    if line.unicode_len() < 3 {
        return Err(ParseError::LineTooShort);
    }
    let opp = match parse_opponent_char(line.get_char(0)) {
        Ok(opp) => opp,
        Err(e) => {
            return Err(e);
        },
    };
    match parse_outcome_char(line.get_char(2)) {
        Ok(desired) => Ok((opp, desired)),
        Err(e) => Err(e),
    }
}

/// The character sequences of a list of lines.
pub open spec fn line_views(lines: Seq<String>) -> Seq<Seq<char>> {
    lines.map_values(|line: String| line@)
}

/// Parse of a whole input, line by line, under a per-line reading.
/// The rounds come out in line order; the first line that fails to
/// parse aborts the whole parse with its error.
pub open spec fn parsed_rounds<T>(
    lines: Seq<Seq<char>>,
    read_line: spec_fn(Seq<char>) -> Result<T, ParseError>,
) -> Result<Seq<T>, ParseError>
    decreases lines.len(),
{
    if lines.len() == 0 {
        Ok(Seq::empty())
    } else {
        match parsed_rounds(lines.drop_last(), read_line) {
            Err(e) => Err(e),
            Ok(rounds) => match read_line(lines.last()) {
                Err(e) => Err(e),
                Ok(round) => Ok(rounds.push(round)),
            },
        }
    }
}

/// Parse of a whole input under the move reading.
pub open spec fn lines_rounds_moves(lines: Seq<Seq<char>>) -> Result<
    Seq<(MoveType, MoveType)>,
    ParseError,
> {
    parsed_rounds(lines, |line: Seq<char>| line_round_moves(line))
}

/// Parse of a whole input under the desired-outcome reading.
pub open spec fn lines_rounds_outcome(lines: Seq<Seq<char>>) -> Result<
    Seq<(MoveType, MoveOutcome)>,
    ParseError,
> {
    parsed_rounds(lines, |line: Seq<char>| line_round_outcome(line))
}

/// A successful whole-input parse yields one round per line.
pub proof fn lemma_parsed_rounds_len<T>(
    lines: Seq<Seq<char>>,
    read_line: spec_fn(Seq<char>) -> Result<T, ParseError>,
)
    ensures
        parsed_rounds(lines, read_line) is Ok ==> parsed_rounds(lines, read_line)->Ok_0.len()
            == lines.len(),
    decreases lines.len(),
{
    if lines.len() > 0 {
        lemma_parsed_rounds_len(lines.drop_last(), read_line);
    }
}

/// Once a prefix of the input fails to parse, the whole input fails
/// with the same error.
proof fn lemma_parsed_rounds_error_stays<T>(
    lines: Seq<Seq<char>>,
    read_line: spec_fn(Seq<char>) -> Result<T, ParseError>,
    k: int,
)
    requires
        0 <= k <= lines.len(),
        parsed_rounds(lines.take(k), read_line) is Err,
    ensures
        parsed_rounds(lines, read_line) == parsed_rounds(lines.take(k), read_line),
    decreases lines.len() - k,
{
    if k == lines.len() {
        assert(lines.take(k) =~= lines);
    } else {
        assert(lines.take(k + 1).drop_last() =~= lines.take(k));
        lemma_parsed_rounds_error_stays(lines, read_line, k + 1);
    }
}

/// Parse every line as an (opponent move, own move) round. The first
/// malformed line aborts the parse with its error.
pub fn parse_rounds_moves(lines: &Vec<String>) -> (r: Result<Vec<(MoveType, MoveType)>, ParseError>)
    ensures
        (match r {
            Ok(rounds) => lines_rounds_moves(line_views(lines@)) == Ok::<
                Seq<(MoveType, MoveType)>,
                ParseError,
            >(rounds@),
            Err(e) => lines_rounds_moves(line_views(lines@)) == Err::<
                Seq<(MoveType, MoveType)>,
                ParseError,
            >(e),
        }),
{
    let ghost all_lines = line_views(lines@);
    let mut rounds: Vec<(MoveType, MoveType)> = Vec::new();
    let mut i: usize = 0;
    while i < lines.len()
        invariant
            i <= lines@.len(),
            all_lines == line_views(lines@),
            lines_rounds_moves(all_lines.take(i as int)) == Ok::<
                Seq<(MoveType, MoveType)>,
                ParseError,
            >(rounds@),
        decreases lines@.len() - i,
    {
        proof {
            assert(all_lines.take(i + 1).drop_last() =~= all_lines.take(i as int));
            assert(all_lines.take(i + 1).last() == lines@[i as int]@);
        }
        match parse_line_moves(lines[i].as_str()) {
            Ok(round) => {
                rounds.push(round);
            },
            Err(e) => {
                proof {
                    lemma_parsed_rounds_error_stays(
                        all_lines,
                        |line: Seq<char>| line_round_moves(line),
                        i + 1,
                    );
                }
                return Err(e);
            },
        }
        i = i + 1;
    }
    proof {
        assert(all_lines.take(lines@.len() as int) =~= all_lines);
    }
    Ok(rounds)
}

/// Parse every line as an (opponent move, desired outcome) round. The
/// first malformed line aborts the parse with its error.
pub fn parse_rounds_outcome(lines: &Vec<String>) -> (r: Result<
    Vec<(MoveType, MoveOutcome)>,
    ParseError,
>)
    ensures
        (match r {
            Ok(rounds) => lines_rounds_outcome(line_views(lines@)) == Ok::<
                Seq<(MoveType, MoveOutcome)>,
                ParseError,
            >(rounds@),
            Err(e) => lines_rounds_outcome(line_views(lines@)) == Err::<
                Seq<(MoveType, MoveOutcome)>,
                ParseError,
            >(e),
        }),
{
    let ghost all_lines = line_views(lines@);
    let mut rounds: Vec<(MoveType, MoveOutcome)> = Vec::new();
    let mut i: usize = 0;
    while i < lines.len()
        invariant
            i <= lines@.len(),
            all_lines == line_views(lines@),
            lines_rounds_outcome(all_lines.take(i as int)) == Ok::<
                Seq<(MoveType, MoveOutcome)>,
                ParseError,
            >(rounds@),
        decreases lines@.len() - i,
    {
        proof {
            assert(all_lines.take(i + 1).drop_last() =~= all_lines.take(i as int));
            assert(all_lines.take(i + 1).last() == lines@[i as int]@);
        }
        match parse_line_outcome(lines[i].as_str()) {
            Ok(round) => {
                rounds.push(round);
            },
            Err(e) => {
                proof {
                    lemma_parsed_rounds_error_stays(
                        all_lines,
                        |line: Seq<char>| line_round_outcome(line),
                        i + 1,
                    );
                }
                return Err(e);
            },
        }
        i = i + 1;
    }
    proof {
        assert(all_lines.take(lines@.len() as int) =~= all_lines);
    }
    Ok(rounds)
}

} // verus!
