use chess_engine::piece::{Color, Kind, Piece};
use chess_engine::pos::Position;

fn filled(color: Color, kind: Kind) -> Piece {
    Piece::Filled { color, kind }
}

#[test]
fn scores_follow_the_material_table() {
    assert_eq!(Piece::Empty.score(), 0);
    assert_eq!(filled(Color::White, Kind::Pawn).score(), 1);
    assert_eq!(filled(Color::Black, Kind::Knight).score(), 3);
    assert_eq!(filled(Color::White, Kind::Bishop).score(), 3);
    assert_eq!(filled(Color::Black, Kind::Rook).score(), 5);
    assert_eq!(filled(Color::White, Kind::Queen).score(), 9);
    assert_eq!(filled(Color::Black, Kind::King).score(), 200);
}

#[test]
fn color_queries_distinguish_the_sides() {
    let wp = filled(Color::White, Kind::Pawn);
    assert_eq!(wp.color(), Some(Color::White));
    assert_eq!(wp.opposite_color(), Some(Color::Black));
    assert_eq!(wp.kind(), Some(Kind::Pawn));
    assert_eq!(Piece::Empty.color(), None);
    assert_eq!(Piece::Empty.opposite_color(), None);
    assert!(wp.has_color(Color::White));
    assert!(!wp.has_color(Color::Black));
    assert!(!Piece::Empty.has_color(Color::White));
}

#[test]
fn opposite_flips_the_color_and_keeps_the_kind() {
    let br = filled(Color::Black, Kind::Rook);
    assert_eq!(br.opposite(), filled(Color::White, Kind::Rook));
    assert_eq!(Piece::Empty.opposite(), Piece::Empty);
    assert_eq!(Color::White.opposite(), Color::Black);
    assert_eq!(Color::Black.opposite(), Color::White);
}

#[test]
fn bits_encode_one_color_bit_and_one_kind_bit() {
    assert_eq!(Piece::Empty.bits(), 0);
    assert_eq!(filled(Color::White, Kind::Pawn).bits(), 0b0000_0101);
    assert_eq!(filled(Color::Black, Kind::Pawn).bits(), 0b0000_0110);
    assert_eq!(filled(Color::White, Kind::Knight).bits(), 0b0000_1001);
    assert_eq!(filled(Color::Black, Kind::Bishop).bits(), 0b0001_0010);
    assert_eq!(filled(Color::White, Kind::Rook).bits(), 0b0010_0001);
    assert_eq!(filled(Color::Black, Kind::Queen).bits(), 0b0100_0010);
    assert_eq!(filled(Color::White, Kind::King).bits(), 0b1000_0001);
}

#[test]
fn from_bits_round_trips_every_square_value() {
    let mut all = vec![Piece::Empty];
    for color in [Color::White, Color::Black] {
        for kind in [Kind::Pawn, Kind::Knight, Kind::Bishop, Kind::Rook, Kind::Queen, Kind::King] {
            all.push(filled(color, kind));
        }
    }
    for p in all {
        assert_eq!(Piece::from_bits(p.bits()), Some(p));
    }
}

#[test]
fn from_bits_rejects_malformed_bytes() {
    assert_eq!(Piece::from_bits(0b0000_0001), None); // color without kind
    assert_eq!(Piece::from_bits(0b0000_0100), None); // kind without color
    assert_eq!(Piece::from_bits(0b0000_0111), None); // both colors
    assert_eq!(Piece::from_bits(0b0000_1101), None); // two kinds
    assert_eq!(Piece::from_bits(0xff), None);
}

#[test]
fn piece_text_is_case_coded_by_color() {
    assert_eq!(Piece::Empty.text(), ".");
    assert_eq!(filled(Color::White, Kind::Pawn).text(), "P");
    assert_eq!(filled(Color::White, Kind::Knight).text(), "N");
    assert_eq!(filled(Color::Black, Kind::Queen).text(), "q");
    assert_eq!(filled(Color::Black, Kind::King).text(), "k");
}

#[test]
fn coordinate_validity_is_the_range_check() {
    assert!(Position::new(0, 0).is_valid());
    assert!(Position::new(7, 7).is_valid());
    assert!(!Position::new(-1, 3).is_valid());
    assert!(!Position::new(3, -1).is_valid());
    assert!(!Position::new(8, 0).is_valid());
    assert!(!Position::new(0, 8).is_valid());
}

#[test]
fn from_linear_index_splits_file_and_rank() {
    assert_eq!(Position::from_linear_index(0), Position::new(0, 0));
    assert_eq!(Position::from_linear_index(7), Position::new(7, 0));
    assert_eq!(Position::from_linear_index(8), Position::new(0, 1));
    assert_eq!(Position::from_linear_index(63), Position::new(7, 7));
}
