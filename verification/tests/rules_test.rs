use kalah::game_config::GameConfig;
use kalah::game_field::{Color, GameField, Hole, Side, Size, Stone};
use kalah::game_process::{GameProcess, GameStatus, MoveError};

fn new_game(stones: usize, holes: usize, pie: bool) -> GameProcess {
    let config = GameConfig::build(stones, holes, pie).unwrap();
    let field = GameField::build(&config);
    GameProcess::build(field, "P1".to_string(), "P2".to_string(), config)
}

fn stones_on_board(p: &GameProcess) -> usize {
    let mut total = 0;
    for side in [&p.game_field.side_one, &p.game_field.side_two] {
        for hole in &side.holes {
            total += hole.stones.len();
        }
    }
    total
}

fn side_counts(p: &GameProcess) -> (Vec<usize>, Vec<usize>) {
    let one = p.game_field.side_one.holes.iter().map(|h| h.stones.len()).collect();
    let two = p.game_field.side_two.holes.iter().map(|h| h.stones.len()).collect();
    (one, two)
}

#[test]
fn conservation_across_moves() {
    let mut p = new_game(6, 6, false);
    let initial = 2 * 6 * 6;
    assert_eq!(p.player_one.score + p.player_two.score + stones_on_board(&p), initial);
    for hole in [1, 2, 1, 3, 2, 4] {
        let _ = p.move_stones_from_hole(hole);
        assert_eq!(p.player_one.score + p.player_two.score + stones_on_board(&p), initial);
    }
}

#[test]
fn rejected_move_changes_nothing() {
    let mut p = new_game(6, 6, false);
    let before = side_counts(&p);
    for bad in [0, 7, 100] {
        match p.move_stones_from_hole(bad) {
            Err(MoveError::InvalidHoleIndex) => {}
            other => panic!("expected InvalidHoleIndex, got {:?}", other),
        }
        assert_eq!(side_counts(&p), before);
        assert_eq!(p.player_one.score, 0);
        assert_eq!(p.player_two.score, 0);
        assert_eq!(p.total_turns, 0);
        assert!(p.is_player_one_turn);
    }
}

#[test]
fn empty_hole_is_rejected() {
    let mut p = new_game(1, 2, false);
    // Hole 2 lands its one stone in the store: the hole is empty afterwards
    // and the mover keeps the turn.
    assert_eq!(p.move_stones_from_hole(2), Ok(GameStatus::Run));
    let before = side_counts(&p);
    let score_one = p.player_one.score;
    match p.move_stones_from_hole(2) {
        Err(MoveError::EmptyHole) => {}
        other => panic!("expected EmptyHole, got {:?}", other),
    }
    assert_eq!(side_counts(&p), before);
    assert_eq!(p.player_one.score, score_one);
}

#[test]
fn opponent_store_is_skipped() {
    // Two holes of nine stones: sowing hole 1 crosses the opponent's store
    // slot, which must contribute nothing to the opponent's score.
    let mut p = new_game(9, 2, false);
    assert_eq!(p.move_stones_from_hole(1), Ok(GameStatus::Run));
    assert_eq!(p.player_two.score, 0);
    assert_eq!(p.player_one.score, 2);
    let (one, two) = side_counts(&p);
    assert_eq!(one, vec![1, 11]);
    assert_eq!(two, vec![11, 11]);
    assert_eq!(p.total_turns, 1);
    assert!(!p.is_player_one_turn);
}

#[test]
fn finishing_move_sweeps_both_sides() {
    // One hole of one stone per side: player one's only move empties their
    // side, the game finishes, and the sweep credits each side's remainder.
    let mut p = new_game(1, 1, false);
    assert_eq!(p.move_stones_from_hole(1), Ok(GameStatus::Finished));
    assert_eq!(p.player_one.score, 1);
    assert_eq!(p.player_two.score, 1);
    assert_eq!(p.game_field.side_one.holes[0].stones.len(), 0);
    assert_eq!(p.game_field.side_two.holes[0].stones.len(), 0);
    assert_eq!(p.total_turns, 1);
}

#[test]
fn single_stone_capture_takes_mirror_hole() {
    // Two holes of one stone. Hole 2 first (extra turn via the store), then
    // hole 1 lands alone in the now-empty hole 2 and captures the mirror
    // hole on the opponent's side.
    let mut p = new_game(1, 2, false);
    assert_eq!(p.move_stones_from_hole(2), Ok(GameStatus::Run));
    assert_eq!(p.player_one.score, 1);
    assert!(p.is_player_one_turn);
    assert_eq!(p.move_stones_from_hole(1), Ok(GameStatus::Run));
    let (one, two) = side_counts(&p);
    // The landed stone stays in its hole; the mirror hole is emptied.
    assert_eq!(one, vec![0, 1]);
    assert_eq!(two, vec![0, 1]);
    assert_eq!(p.player_one.score, 2);
    assert_eq!(p.player_two.score, 0);
    assert!(!p.is_player_one_turn);
}

#[test]
fn extra_turn_on_own_store_landing() {
    let mut p = new_game(6, 6, false);
    assert_eq!(p.move_stones_from_hole(1), Ok(GameStatus::Run));
    assert!(p.is_player_one_turn);
    assert_eq!(p.player_one.score, 1);
}

#[test]
fn pie_rule_swaps_sides_and_scores() {
    let mut p = new_game(6, 6, true);
    // Player one's first move ends in their own store: the pie rule then
    // exchanges the sides and the scores wholesale.
    assert_eq!(p.move_stones_from_hole(1), Ok(GameStatus::Run));
    let (one, two) = side_counts(&p);
    assert_eq!(one, vec![6, 6, 6, 6, 6, 6]);
    assert_eq!(two, vec![0, 7, 7, 7, 7, 7]);
    assert_eq!(p.player_one.score, 0);
    assert_eq!(p.player_two.score, 1);
    assert_eq!(p.total_turns, 1);
    assert!(p.is_player_one_turn);
}

#[test]
fn pie_rule_off_leaves_sides_alone() {
    let mut p = new_game(6, 6, false);
    assert_eq!(p.move_stones_from_hole(1), Ok(GameStatus::Run));
    let (one, _) = side_counts(&p);
    assert_eq!(one, vec![0, 7, 7, 7, 7, 7]);
    assert_eq!(p.player_one.score, 1);
}

#[test]
fn played_out_game_conserves_stones() {
    let mut p = new_game(3, 3, false);
    let total = 2 * 3 * 3;
    let mut finished = false;
    for _ in 0..500 {
        // While the game runs, both sides still hold stones, so the mover
        // always has a nonempty hole; play the first one.
        let side = if p.is_player_one_turn {
            &p.game_field.side_one
        } else {
            &p.game_field.side_two
        };
        let mut hole = 0;
        for (i, h) in side.holes.iter().enumerate() {
            if !h.stones.is_empty() {
                hole = i + 1;
                break;
            }
        }
        assert!(hole > 0, "a running game left the mover without stones");
        match p.move_stones_from_hole(hole) {
            Ok(GameStatus::Finished) => {
                finished = true;
            }
            Ok(GameStatus::Run) => {}
            Err(e) => panic!("unexpected rejection: {:?}", e),
        }
        assert_eq!(p.player_one.score + p.player_two.score + stones_on_board(&p), total);
        if finished {
            break;
        }
    }
    if finished {
        assert_eq!(stones_on_board(&p), 0);
        assert_eq!(p.player_one.score + p.player_two.score, total);
    }
}

#[test]
fn config_rejects_oversized_board() {
    assert_eq!(GameConfig::build(10, 6, false), Err("Max stone numbers in hole are 9"));
    assert_eq!(GameConfig::build(6, 10, false), Err("Max hole numbers are 9"));
    assert!(GameConfig::build(0, 0, false).is_ok());
    assert!(GameConfig::build(9, 9, true).is_ok());
}

#[test]
fn move_error_messages() {
    let mut p = new_game(1, 2, false);
    let invalid = p.move_stones_from_hole(3).unwrap_err();
    assert_eq!(invalid.message(), "Selected hole number is out of range");
    let _ = p.move_stones_from_hole(2);
    let empty = p.move_stones_from_hole(2).unwrap_err();
    assert_eq!(empty.message(), "Selected hole is empty");
}

#[test]
fn is_game_finish_reads_both_sides() {
    let p = new_game(1, 1, false);
    assert!(!p.is_game_finish());
    let empty_board = new_game(0, 1, false);
    assert!(empty_board.is_game_finish());

    // The check looks at both sides: an empty opponent side finishes the
    // game even though the mover could still play.
    let config = GameConfig::build(1, 1, false).unwrap();
    let field = GameField {
        side_one: Side {
            holes: vec![Hole { stones: vec![Stone { color: Color::Blue, size: Size::Small }] }],
        },
        side_two: Side { holes: vec![Hole { stones: vec![] }] },
    };
    let asym = GameProcess::build(field, "P1".to_string(), "P2".to_string(), config);
    assert!(asym.is_player_one_turn);
    assert!(asym.is_game_finish());
}
