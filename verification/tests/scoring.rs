use chess_uci::game::{material_score, score_from};
use chess_uci::{Outcome, Piece, Position, Role, Seat};

fn piece(color: Seat, role: Role) -> Piece {
    Piece { color, role }
}

#[test]
fn material_of_known_pieces_is_exact() {
    let pieces = vec![
        piece(Seat::White, Role::Queen),
        piece(Seat::White, Role::King),
        piece(Seat::Black, Role::King),
    ];
    assert_eq!(material_score(&pieces, Seat::White), 90);
    assert_eq!(material_score(&pieces, Seat::Black), -90);
}

#[test]
fn material_counts_every_role() {
    let pieces = vec![
        piece(Seat::White, Role::Pawn),
        piece(Seat::White, Role::Knight),
        piece(Seat::White, Role::Bishop),
        piece(Seat::White, Role::Rook),
        piece(Seat::White, Role::Queen),
        piece(Seat::White, Role::King),
    ];
    assert_eq!(material_score(&pieces, Seat::White), 10 + 30 + 30 + 50 + 90 + 900);
    assert_eq!(material_score(&pieces, Seat::Black), -(10 + 30 + 30 + 50 + 90 + 900));
}

#[test]
fn material_is_perspective_antisymmetric_on_a_real_board() {
    let game = Position::from_description("k7/8/8/8/8/8/8/1QK5 w - - 0 1").unwrap();
    let pieces = game.pieces();
    let white = material_score(&pieces, Seat::White);
    let black = material_score(&pieces, Seat::Black);
    assert_eq!(white, 90);
    assert_eq!(white, -black);
}

#[test]
fn terminal_draw_scores_zero_for_both_seats() {
    let pieces = Vec::new();
    assert_eq!(score_from(&Some(Outcome::Draw), &pieces, Seat::White), 0);
    assert_eq!(score_from(&Some(Outcome::Draw), &pieces, Seat::Black), 0);
}

#[test]
fn decisive_outcome_scores_the_sentinels() {
    let pieces = Vec::new();
    let won_by_white = Some(Outcome::Decisive { winner: Seat::White });
    assert_eq!(score_from(&won_by_white, &pieces, Seat::White), i32::MAX);
    assert_eq!(score_from(&won_by_white, &pieces, Seat::Black), i32::MIN);
}

#[test]
fn actions_answer_is_to_move_iff_seat_to_move() {
    let game = Position::initial();
    let (white_to_move, white_actions) = game.actions(Seat::White);
    let (black_to_move, black_actions) = game.actions(Seat::Black);
    assert!(white_to_move);
    assert_eq!(white_actions.len(), 20);
    assert!(!black_to_move);
    assert!(black_actions.is_empty());
}

#[test]
fn actions_of_a_terminal_position_are_empty() {
    let game = Position::from_description("k7/8/8/8/8/8/8/K7 w - - 0 1").unwrap();
    assert_eq!(game.outcome(), Some(Outcome::Draw));
    let (to_move, actions) = game.actions(Seat::White);
    assert!(to_move);
    assert!(actions.is_empty());
}

#[test]
fn execute_scores_material_of_an_ongoing_game() {
    let mut game = Position::initial();
    let m = game.from_text("e2e4").unwrap();
    assert_eq!(game.execute(&m, Seat::White), 0);
    assert_eq!(game.turn(), Seat::Black);
}

#[test]
fn execute_scores_a_capture_for_both_perspectives() {
    // White queen takes the undefended black queen along the open file.
    let base = "q3k3/8/8/8/8/8/8/Q3K3 w - - 0 1";
    let game = Position::from_description(base).unwrap();
    let m = game.from_text("a1a8").unwrap();
    let mut for_white = game.clone();
    assert_eq!(for_white.execute(&m, Seat::White), 90);
    let mut for_black = game.clone();
    assert_eq!(for_black.execute(&m, Seat::Black), -90);
}

#[test]
fn execute_scores_checkmate_with_the_sentinels() {
    // Black mates on h4 after f3 e5 g4.
    let moves = ["f2f3", "e7e5", "g2g4"];
    let mut game = Position::initial();
    for text in moves {
        let m = game.from_text(text).unwrap();
        let _ = game.execute(&m, Seat::White);
    }
    let mate = game.from_text("d8h4").unwrap();
    let mut for_black = game.clone();
    assert_eq!(for_black.execute(&mate, Seat::Black), i32::MAX);
    let mut for_white = game.clone();
    assert_eq!(for_white.execute(&mate, Seat::White), i32::MIN);
}
