use chess_engine::ai::{Ai, DEPTH, SCORE_INF};
use chess_engine::board::{Board, Player};
use chess_engine::moves::Move;
use chess_engine::piece::{Color, Kind, Piece};
use chess_engine::pos::Position;

fn filled(color: Color, kind: Kind) -> Piece {
    Piece::Filled { color, kind }
}

fn cleared() -> Board {
    let mut b = Board::new();
    for i in 0..64 {
        b.pieces[i] = Piece::Empty;
    }
    b
}

fn set(b: &mut Board, x: i8, y: i8, p: Piece) {
    b.pieces[(y as usize) * 8 + (x as usize)] = p;
}

/// White rook on A1, black pawn on H8, White to move: material +4 pawns,
/// 14 rook moves of mobility.
fn rook_vs_pawn() -> Board {
    let mut b = cleared();
    set(&mut b, 0, 0, filled(Color::White, Kind::Rook));
    set(&mut b, 7, 7, filled(Color::Black, Kind::Pawn));
    b
}

/// Black is completely walled in (king in the corner behind own pawns) and
/// has no moves; White has exactly the three king moves, none of which
/// frees Black.
fn walled_in_black() -> Board {
    let mut b = cleared();
    set(&mut b, 0, 0, filled(Color::Black, Kind::King));
    set(&mut b, 0, 1, filled(Color::Black, Kind::Pawn));
    set(&mut b, 1, 0, filled(Color::Black, Kind::Pawn));
    set(&mut b, 1, 1, filled(Color::Black, Kind::Pawn));
    set(&mut b, 7, 7, filled(Color::White, Kind::King));
    b
}

#[test]
fn ai_new_derives_the_color_from_the_player() {
    let white_ai = Ai::new(Player::White);
    assert_eq!(white_ai.color, Color::White);
    let black_ai = Ai::new(Player::Black);
    assert_eq!(black_ai.color, Color::Black);
}

#[test]
fn eval_counts_material_in_tenths_plus_mobility() {
    let board = rook_vs_pawn();
    let ai = Ai::new(Player::White);
    // 10 * (5 - 1) material + 14 moves for the side to move.
    assert_eq!(ai.eval(&board), 54);
}

#[test]
fn eval_of_the_starting_position_is_pure_mobility() {
    let board = Board::new();
    let ai = Ai::new(Player::White);
    assert_eq!(ai.eval(&board), 20);
    assert_eq!(Ai::new(Player::Black).eval(&board), 20);
}

#[test]
fn eval_negates_material_but_not_mobility_when_perspective_swaps() {
    let board = rook_vs_pawn();
    let white_eval = Ai::new(Player::White).eval(&board);
    let black_eval = Ai::new(Player::Black).eval(&board);
    assert_eq!(white_eval, 54);
    assert_eq!(black_eval, -26);
    // The two perspectives sum to twice the mobility term.
    assert_eq!(white_eval + black_eval, 2 * 14);
}

#[test]
fn negamax_at_depth_zero_returns_the_evaluation() {
    let board = rook_vs_pawn();
    let ai = Ai::new(Player::White);
    let e = ai.eval(&board);
    assert_eq!(ai.alpha_beta_negamax(&board, 0, -SCORE_INF, SCORE_INF, true), e);
    assert_eq!(ai.alpha_beta_negamax(&board, 0, -SCORE_INF, SCORE_INF, false), e);
    assert_eq!(ai.alpha_beta_negamax(&board, 0, -5, 5, true), e);
    assert_eq!(ai.alpha_beta_negamax(&board, 0, 999, -999, false), e);
}

#[test]
fn negamax_at_depth_one_maximizes_over_children() {
    // A lone white rook: every move leaves material at +50 and Black with
    // no mobility, so depth 1 sees 50 for every child.
    let mut board = cleared();
    set(&mut board, 0, 0, filled(Color::White, Kind::Rook));
    let ai = Ai::new(Player::White);
    assert_eq!(ai.alpha_beta_negamax(&board, 1, -SCORE_INF, SCORE_INF, true), 50);
}

#[test]
fn negamax_with_no_moves_returns_the_sentinel() {
    let mut board = walled_in_black();
    board.turn = Player::Black;
    let ai = Ai::new(Player::White);
    assert_eq!(board.generate_all_moves().len(), 0);
    assert_eq!(ai.alpha_beta_negamax(&board, 2, -SCORE_INF, SCORE_INF, true), -SCORE_INF);
    assert_eq!(ai.alpha_beta_negamax(&board, 2, -SCORE_INF, SCORE_INF, false), SCORE_INF);
}

#[test]
fn sentinels_flow_up_when_a_reply_level_has_no_moves() {
    // Every white move leaves Black moveless, so the depth-1 minimizing
    // level returns its sentinel unchanged and the maximizing root keeps it.
    let board = walled_in_black();
    let ai = Ai::new(Player::White);
    assert_eq!(ai.alpha_beta_negamax(&board, 2, -SCORE_INF, SCORE_INF, true), SCORE_INF);
}

#[test]
fn best_move_is_deterministic() {
    let mut board = cleared();
    set(&mut board, 4, 4, filled(Color::White, Kind::King));
    set(&mut board, 0, 7, filled(Color::Black, Kind::King));
    let ai = Ai::new(Player::White);
    let first = ai.best_move(&board);
    let second = ai.best_move(&board);
    assert!(first.is_some());
    assert_eq!(first, second);
}

#[test]
fn best_move_plays_the_rook_and_is_reproducible() {
    // A white rook shares a file with a black queen. The search keeps the
    // quirks of its evaluation order (the window is negated between plies
    // but child values are not, and the per-move evaluation always starts
    // maximizing although the opponent moves next), so the materially
    // obvious capture need not win; what is pinned down is that the choice
    // is a deterministic function of the board. This position chooses the
    // rook slide to G3, and chooses it every time.
    let mut board = cleared();
    set(&mut board, 2, 2, filled(Color::White, Kind::Rook));
    set(&mut board, 2, 6, filled(Color::Black, Kind::Queen));
    set(&mut board, 7, 0, filled(Color::White, Kind::King));
    set(&mut board, 0, 7, filled(Color::Black, Kind::King));
    let ai = Ai::new(Player::White);
    let m = ai.best_move(&board).expect("a move exists");
    assert_eq!((m.start, m.end), (Position::new(2, 2), Position::new(6, 2)));
    let again = ai.best_move(&board).expect("a move exists");
    assert_eq!((again.start, again.end), (m.start, m.end));
}

#[test]
fn best_move_is_none_when_every_line_scores_the_sentinel() {
    // Every white move leaves Black without moves, so every score is the
    // sentinel and never strictly exceeds the running best.
    let board = walled_in_black();
    let ai = Ai::new(Player::White);
    assert_eq!(board.generate_all_moves().len(), 3);
    assert!(ai.best_move(&board).is_none());
}

#[test]
fn random_fallback_picks_some_generated_move() {
    let board = walled_in_black();
    let ai = Ai::new(Player::White);
    let legal: Vec<Move> = board.generate_all_moves();
    for _ in 0..20 {
        let m = ai.best_move_or_random(&board);
        assert!(legal.contains(&m));
    }
}

#[test]
fn random_fallback_reaches_every_move_over_many_trials() {
    let board = walled_in_black();
    let ai = Ai::new(Player::White);
    let legal: Vec<Move> = board.generate_all_moves();
    assert_eq!(legal.len(), 3);
    let mut seen = [false; 3];
    for _ in 0..200 {
        let m = ai.best_move_or_random(&board);
        let k = legal.iter().position(|l| *l == m).expect("a generated move");
        seen[k] = true;
    }
    assert!(seen.iter().all(|s| *s));
}

#[test]
fn best_move_or_random_returns_the_best_move_when_there_is_one() {
    let mut board = cleared();
    set(&mut board, 2, 2, filled(Color::White, Kind::Rook));
    set(&mut board, 2, 6, filled(Color::Black, Kind::Queen));
    set(&mut board, 7, 0, filled(Color::White, Kind::King));
    set(&mut board, 0, 7, filled(Color::Black, Kind::King));
    let ai = Ai::new(Player::White);
    let best = ai.best_move(&board).expect("a move exists");
    let chosen = ai.best_move_or_random(&board);
    assert_eq!(chosen, best);
}

#[test]
fn search_depth_is_four() {
    assert_eq!(DEPTH, 4);
}
