use chess_engine::board::{Board, Player};
use chess_engine::moves::Move;
use chess_engine::piece::{Color, Kind, Piece};
use chess_engine::pos::Position;

fn filled(color: Color, kind: Kind) -> Piece {
    Piece::Filled { color, kind }
}

fn cleared() -> Board {
    let mut b = Board::new();
    for i in 0..64 {
        b.pieces[i] = Piece::Empty;
    }
    b
}

fn set(b: &mut Board, x: i8, y: i8, p: Piece) {
    b.pieces[(y as usize) * 8 + (x as usize)] = p;
}

#[test]
fn starting_position_has_twenty_moves_for_white() {
    let board = Board::new();
    let moves = board.generate_all_moves();
    assert_eq!(moves.len(), 20);
    // 16 pawn moves (8 single + 8 double) and 4 knight moves.
    let pawn_moves = moves
        .iter()
        .filter(|m| m.start.y == 1)
        .count();
    let knight_moves = moves
        .iter()
        .filter(|m| m.start.y == 0)
        .count();
    assert_eq!(pawn_moves, 16);
    assert_eq!(knight_moves, 4);
}

#[test]
fn starting_position_has_twenty_moves_for_black_too() {
    let mut board = Board::new();
    let moves = board.generate_all_moves();
    moves[0].execute(&mut board);
    assert!(matches!(board.turn, Player::Black));
    let black_moves = board.generate_all_moves();
    assert_eq!(black_moves.len(), 20);
}

#[test]
fn generated_moves_never_capture_an_own_piece() {
    // One concrete instance of the law: after a white move, none of the
    // moves generated for Black lands on a black piece.
    let mut board = Board::new();
    let white_moves = board.generate_all_moves();
    white_moves[0].execute(&mut board);
    for m in board.generate_all_moves() {
        let dest = board.piece_at(m.get_end());
        assert_ne!(dest.color(), Some(Color::Black));
    }
}

#[test]
fn bishop_in_empty_corner_has_seven_moves() {
    let mut board = cleared();
    set(&mut board, 0, 0, filled(Color::White, Kind::Bishop));
    let moves = board.generate_moves_for(Position::new(0, 0));
    assert_eq!(moves.len(), 7);
    for (k, m) in moves.iter().enumerate() {
        let d = (k + 1) as i8;
        assert_eq!(m.end, Position::new(d, d));
    }
}

#[test]
fn bishop_ray_stops_at_enemy_piece() {
    let mut board = cleared();
    set(&mut board, 0, 0, filled(Color::White, Kind::Bishop));
    set(&mut board, 3, 3, filled(Color::Black, Kind::Pawn));
    let moves = board.generate_moves_for(Position::new(0, 0));
    assert_eq!(moves.len(), 3);
    assert_eq!(moves[0].end, Position::new(1, 1));
    assert_eq!(moves[1].end, Position::new(2, 2));
    assert_eq!(moves[2].end, Position::new(3, 3));
}

#[test]
fn bishop_ray_stops_before_own_piece() {
    let mut board = cleared();
    set(&mut board, 0, 0, filled(Color::White, Kind::Bishop));
    set(&mut board, 3, 3, filled(Color::White, Kind::Pawn));
    let moves = board.generate_moves_for(Position::new(0, 0));
    assert_eq!(moves.len(), 2);
    assert_eq!(moves[1].end, Position::new(2, 2));
}

#[test]
fn pawn_on_start_rank_has_single_and_double_step() {
    let mut board = cleared();
    set(&mut board, 4, 1, filled(Color::White, Kind::Pawn));
    let moves = board.generate_moves_for(Position::new(4, 1));
    assert_eq!(moves.len(), 2);
    assert_eq!(moves[0].end, Position::new(4, 2));
    assert_eq!(moves[1].end, Position::new(4, 3));
}

#[test]
fn pawn_single_step_blocked_leaves_only_the_double_step() {
    // The double step checks only its own destination square, so a blocker
    // one square ahead removes the single step alone.
    let mut board = cleared();
    set(&mut board, 4, 1, filled(Color::White, Kind::Pawn));
    set(&mut board, 4, 2, filled(Color::Black, Kind::Knight));
    let moves = board.generate_moves_for(Position::new(4, 1));
    assert_eq!(moves.len(), 1);
    assert_eq!(moves[0].end, Position::new(4, 3));
}

#[test]
fn pawn_both_straight_squares_blocked_leaves_only_captures() {
    let mut board = cleared();
    set(&mut board, 4, 1, filled(Color::White, Kind::Pawn));
    set(&mut board, 4, 2, filled(Color::Black, Kind::Knight));
    set(&mut board, 4, 3, filled(Color::Black, Kind::Knight));
    set(&mut board, 5, 2, filled(Color::Black, Kind::Rook));
    let moves = board.generate_moves_for(Position::new(4, 1));
    assert_eq!(moves.len(), 1);
    assert_eq!(moves[0].end, Position::new(5, 2));
}

#[test]
fn pawn_off_start_rank_has_no_double_step() {
    let mut board = cleared();
    set(&mut board, 4, 2, filled(Color::White, Kind::Pawn));
    let moves = board.generate_moves_for(Position::new(4, 2));
    assert_eq!(moves.len(), 1);
    assert_eq!(moves[0].end, Position::new(4, 3));
}

#[test]
fn black_pawn_moves_toward_lower_ranks() {
    let mut board = cleared();
    board.turn = Player::Black;
    set(&mut board, 4, 6, filled(Color::Black, Kind::Pawn));
    set(&mut board, 3, 5, filled(Color::White, Kind::Rook));
    let moves = board.generate_moves_for(Position::new(4, 6));
    assert_eq!(moves.len(), 3);
    assert_eq!(moves[0].end, Position::new(4, 5));
    assert_eq!(moves[1].end, Position::new(4, 4));
    assert_eq!(moves[2].end, Position::new(3, 5));
}

#[test]
fn knight_moves_from_starting_square() {
    let board = Board::new();
    let moves = board.generate_moves_for(Position::new(1, 0));
    assert_eq!(moves.len(), 2);
    assert_eq!(moves[0].end, Position::new(2, 2));
    assert_eq!(moves[1].end, Position::new(0, 2));
}

#[test]
fn king_in_open_center_has_eight_moves() {
    let mut board = cleared();
    set(&mut board, 4, 4, filled(Color::White, Kind::King));
    let moves = board.generate_moves_for(Position::new(4, 4));
    assert_eq!(moves.len(), 8);
}

#[test]
fn queen_has_bishop_then_rook_moves() {
    let mut board = cleared();
    set(&mut board, 0, 0, filled(Color::White, Kind::Queen));
    let moves = board.generate_moves_for(Position::new(0, 0));
    assert_eq!(moves.len(), 21);
    // Diagonal ray first, then the two orthogonal rays.
    assert_eq!(moves[0].end, Position::new(1, 1));
    assert_eq!(moves[6].end, Position::new(7, 7));
    assert_eq!(moves[7].end, Position::new(1, 0));
    assert_eq!(moves[14].end, Position::new(0, 1));
}

#[test]
fn rook_rays_in_fixed_order() {
    let mut board = cleared();
    set(&mut board, 3, 3, filled(Color::White, Kind::Rook));
    let moves = board.generate_moves_for(Position::new(3, 3));
    assert_eq!(moves.len(), 14);
    // Rays in order +x, +y, -x, -y, each walked outward.
    assert_eq!(moves[0].end, Position::new(4, 3));
    assert_eq!(moves[3].end, Position::new(7, 3));
    assert_eq!(moves[4].end, Position::new(3, 4));
    assert_eq!(moves[8].end, Position::new(2, 3));
    assert_eq!(moves[11].end, Position::new(3, 2));
    assert_eq!(moves[13].end, Position::new(3, 0));
}

#[test]
fn pawn_on_the_last_rank_has_no_moves() {
    let mut board = cleared();
    set(&mut board, 4, 7, filled(Color::White, Kind::Pawn));
    let moves = board.generate_moves_for(Position::new(4, 7));
    assert_eq!(moves.len(), 0);
}

#[test]
fn knight_in_a_corner_has_two_moves() {
    let mut board = cleared();
    set(&mut board, 0, 0, filled(Color::White, Kind::Knight));
    let moves = board.generate_moves_for(Position::new(0, 0));
    assert_eq!(moves.len(), 2);
    assert_eq!(moves[0].end, Position::new(1, 2));
    assert_eq!(moves[1].end, Position::new(2, 1));
}

#[test]
fn king_walled_in_by_own_pieces_has_no_moves() {
    let mut board = cleared();
    set(&mut board, 0, 0, filled(Color::White, Kind::King));
    set(&mut board, 0, 1, filled(Color::White, Kind::Pawn));
    set(&mut board, 1, 0, filled(Color::White, Kind::Pawn));
    set(&mut board, 1, 1, filled(Color::White, Kind::Pawn));
    let moves = board.generate_moves_for(Position::new(0, 0));
    assert_eq!(moves.len(), 0);
}

#[test]
fn execute_moves_the_piece_and_flips_the_turn() {
    let mut board = Board::new();
    let m = Move::new(Position::new(0, 1), Position::new(0, 3));
    m.execute(&mut board);
    assert_eq!(board.piece_at(Position::new(0, 1)), Piece::Empty);
    assert_eq!(
        board.piece_at(Position::new(0, 3)),
        filled(Color::White, Kind::Pawn)
    );
    assert!(matches!(board.turn, Player::Black));
}

#[test]
fn execute_captures_by_overwriting() {
    let mut board = cleared();
    set(&mut board, 2, 2, filled(Color::White, Kind::Rook));
    set(&mut board, 2, 6, filled(Color::Black, Kind::Queen));
    let m = Move::new(Position::new(2, 2), Position::new(2, 6));
    m.do_move(&mut board);
    assert_eq!(board.piece_at(Position::new(2, 2)), Piece::Empty);
    assert_eq!(
        board.piece_at(Position::new(2, 6)),
        filled(Color::White, Kind::Rook)
    );
}

#[test]
fn positions_lists_occupied_squares_in_order() {
    let board = Board::new();
    let positions = board.positions();
    assert_eq!(positions.len(), 32);
    assert_eq!(positions[0], Position::new(0, 0));
    assert_eq!(positions[15], Position::new(7, 1));
    assert_eq!(positions[16], Position::new(0, 6));
    assert_eq!(positions[31], Position::new(7, 7));
}

#[test]
fn is_turn_for_tracks_the_side_to_move() {
    let mut board = Board::new();
    assert!(board.is_turn_for(0, 0));
    assert!(board.is_turn_for(1, 3));
    assert!(!board.is_turn_for(7, 0));
    assert!(!board.is_turn_for(3, 3));
    board.turn = Player::Black;
    assert!(!board.is_turn_for(0, 0));
    assert!(board.is_turn_for(7, 0));
}

#[test]
fn game_is_never_reported_over() {
    assert!(!Board::new().is_game_over());
}

#[test]
fn player_next_alternates() {
    assert!(matches!(Player::White.next(), Player::Black));
    assert!(matches!(Player::Black.next(), Player::White));
}

#[test]
fn duplicate_is_an_equal_independent_copy() {
    let mut board = Board::new();
    let copy = board.duplicate();
    Move::new(Position::new(0, 1), Position::new(0, 2)).execute(&mut board);
    assert_eq!(copy.piece_at(Position::new(0, 1)), filled(Color::White, Kind::Pawn));
    assert_eq!(board.piece_at(Position::new(0, 1)), Piece::Empty);
}

#[test]
fn board_text_of_the_starting_position() {
    let board = Board::new();
    let expected = "R N B Q K B N R \n\
                    P P P P P P P P \n\
                    . . . . . . . . \n\
                    . . . . . . . . \n\
                    . . . . . . . . \n\
                    . . . . . . . . \n\
                    p p p p p p p p \n\
                    r n b q k b n r \n";
    assert_eq!(board.to_text(), expected);
}

#[test]
fn move_text_uses_file_letters_and_one_based_ranks() {
    let m = Move::new(Position::new(0, 1), Position::new(1, 2));
    assert_eq!(m.to_string(), "A2 -> B3");
    assert_eq!(Position::new(7, 7).text(), "H8");
}

#[test]
fn move_getters_return_the_endpoints() {
    let m = Move::new(Position::new(2, 3), Position::new(4, 5));
    assert_eq!(m.get_start(), Position::new(2, 3));
    assert_eq!(m.get_end(), Position::new(4, 5));
}
