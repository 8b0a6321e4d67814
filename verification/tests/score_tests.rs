use rps::game::MoveOutcome;
use rps::game::MoveType;
use rps::parse::ParseError;
use rps::score::resolve_moves;
use rps::score::score_moves;
use rps::score::variant_1_total;
use rps::score::variant_2_total;

fn lines(raw: &[&str]) -> Vec<String> {
    raw.iter().map(|s| s.to_string()).collect()
}

#[test]
fn single_round_scores() {
    // Win with Paper: 2 + 6.
    assert_eq!(score_moves(vec![(MoveType::Rock, MoveType::Paper)]), 8);
    // Loss with Rock: 1 + 0.
    assert_eq!(score_moves(vec![(MoveType::Paper, MoveType::Rock)]), 1);
    // Draw with Scissors: 3 + 3.
    assert_eq!(
        score_moves(vec![(MoveType::Scissors, MoveType::Scissors)]),
        6
    );
}

#[test]
fn score_is_a_sum_over_rounds() {
    let rounds = vec![
        (MoveType::Rock, MoveType::Paper),
        (MoveType::Paper, MoveType::Rock),
        (MoveType::Scissors, MoveType::Scissors),
    ];
    assert_eq!(score_moves(rounds), 8 + 1 + 6);
    assert_eq!(score_moves(Vec::new()), 0);
}

#[test]
fn score_is_permutation_invariant() {
    let rounds = vec![
        (MoveType::Rock, MoveType::Paper),
        (MoveType::Paper, MoveType::Rock),
        (MoveType::Scissors, MoveType::Scissors),
    ];
    let reordered = vec![
        (MoveType::Scissors, MoveType::Scissors),
        (MoveType::Rock, MoveType::Paper),
        (MoveType::Paper, MoveType::Rock),
    ];
    assert_eq!(score_moves(rounds), score_moves(reordered));
}

#[test]
fn resolve_moves_realises_each_desired_outcome() {
    let rounds = vec![
        (MoveType::Rock, MoveOutcome::Draw),
        (MoveType::Paper, MoveOutcome::Loss),
        (MoveType::Scissors, MoveOutcome::Win),
    ];
    assert_eq!(
        resolve_moves(rounds),
        vec![
            (MoveType::Rock, MoveType::Rock),
            (MoveType::Paper, MoveType::Rock),
            (MoveType::Scissors, MoveType::Rock),
        ]
    );
}

#[test]
fn worked_example_variant_1() {
    // "A Y": Rock vs Paper, win, 2 + 6 = 8.
    assert_eq!(variant_1_total(&lines(&["A Y"])), Ok(8));
    // "B X": Paper vs Rock, loss, 1 + 0 = 1.
    assert_eq!(variant_1_total(&lines(&["B X"])), Ok(1));
    // "C Z": Scissors vs Scissors, draw, 3 + 3 = 6.
    assert_eq!(variant_1_total(&lines(&["C Z"])), Ok(6));
    assert_eq!(variant_1_total(&lines(&["A Y", "B X", "C Z"])), Ok(15));
}

#[test]
fn worked_example_variant_2() {
    // "A Y": desire a draw against Rock, play Rock, 1 + 3 = 4.
    assert_eq!(variant_2_total(&lines(&["A Y"])), Ok(4));
    // "B X": desire a loss against Paper, play Rock, 1 + 0 = 1.
    assert_eq!(variant_2_total(&lines(&["B X"])), Ok(1));
    // "C Z": desire a win against Scissors, play Rock, 1 + 6 = 7.
    assert_eq!(variant_2_total(&lines(&["C Z"])), Ok(7));
    assert_eq!(variant_2_total(&lines(&["A Y", "B X", "C Z"])), Ok(12));
}

#[test]
fn totals_are_permutation_invariant_over_lines() {
    let a = lines(&["A Y", "B X", "C Z"]);
    let b = lines(&["C Z", "A Y", "B X"]);
    assert_eq!(variant_1_total(&a), variant_1_total(&b));
    assert_eq!(variant_2_total(&a), variant_2_total(&b));
}

#[test]
fn malformed_input_yields_no_score() {
    assert_eq!(
        variant_1_total(&lines(&["A Y", "D Y"])),
        Err(ParseError::BadOpponentToken('D'))
    );
    assert_eq!(
        variant_1_total(&lines(&["A W"])),
        Err(ParseError::BadResponseToken('W'))
    );
    assert_eq!(
        variant_2_total(&lines(&["A Y", "D Y"])),
        Err(ParseError::BadOpponentToken('D'))
    );
    assert_eq!(
        variant_2_total(&lines(&["A"])),
        Err(ParseError::LineTooShort)
    );
}

#[test]
fn empty_input_scores_zero() {
    assert_eq!(variant_1_total(&Vec::new()), Ok(0));
    assert_eq!(variant_2_total(&Vec::new()), Ok(0));
}
