use rps::game::MoveOutcome;
use rps::game::MoveType;

const MOVES: [MoveType; 3] = [MoveType::Rock, MoveType::Paper, MoveType::Scissors];

#[test]
fn move_values() {
    assert_eq!(MoveType::Rock.get_value(), 1);
    assert_eq!(MoveType::Paper.get_value(), 2);
    assert_eq!(MoveType::Scissors.get_value(), 3);
}

#[test]
fn outcome_values() {
    assert_eq!(MoveOutcome::Win.get_value(), 6);
    assert_eq!(MoveOutcome::Draw.get_value(), 3);
    assert_eq!(MoveOutcome::Loss.get_value(), 0);
}

#[test]
fn beating_cycle() {
    assert_eq!(MoveType::Rock.get_beating_move(), MoveType::Paper);
    assert_eq!(MoveType::Paper.get_beating_move(), MoveType::Scissors);
    assert_eq!(MoveType::Scissors.get_beating_move(), MoveType::Rock);
}

#[test]
fn losing_cycle() {
    assert_eq!(MoveType::Rock.get_losing_move(), MoveType::Scissors);
    assert_eq!(MoveType::Paper.get_losing_move(), MoveType::Rock);
    assert_eq!(MoveType::Scissors.get_losing_move(), MoveType::Paper);
}

#[test]
fn cycle_maps_are_mutual_inverses() {
    for m in MOVES {
        assert_eq!(m.get_losing_move().get_beating_move(), m);
        assert_eq!(m.get_beating_move().get_losing_move(), m);
    }
}

#[test]
fn cycle_maps_have_no_fixed_points() {
    for m in MOVES {
        assert_ne!(m.get_beating_move(), m);
        assert_ne!(m.get_losing_move(), m);
    }
}

#[test]
fn classification_is_total_and_exclusive() {
    for a in MOVES {
        for b in MOVES {
            let draw = a == b;
            let win = b == a.get_beating_move();
            let loss = a == b.get_beating_move();
            let holds = [draw, win, loss].iter().filter(|&&h| h).count();
            assert_eq!(holds, 1);
        }
    }
}

#[test]
fn play_move_classifies_rounds() {
    assert_eq!(
        rps::game::play_move(MoveType::Rock, MoveType::Paper),
        MoveOutcome::Win
    );
    assert_eq!(
        rps::game::play_move(MoveType::Paper, MoveType::Rock),
        MoveOutcome::Loss
    );
    assert_eq!(
        rps::game::play_move(MoveType::Scissors, MoveType::Scissors),
        MoveOutcome::Draw
    );
}

#[test]
fn resolve_move_round_trip() {
    let outcomes = [MoveOutcome::Win, MoveOutcome::Draw, MoveOutcome::Loss];
    for opp in MOVES {
        for desired in outcomes {
            let own = rps::game::resolve_move(opp, desired);
            assert_eq!(rps::game::play_move(opp, own), desired);
        }
    }
}

#[test]
fn resolve_move_picks_the_cycle_neighbour() {
    assert_eq!(
        rps::game::resolve_move(MoveType::Rock, MoveOutcome::Draw),
        MoveType::Rock
    );
    assert_eq!(
        rps::game::resolve_move(MoveType::Rock, MoveOutcome::Win),
        MoveType::Paper
    );
    assert_eq!(
        rps::game::resolve_move(MoveType::Rock, MoveOutcome::Loss),
        MoveType::Scissors
    );
}
