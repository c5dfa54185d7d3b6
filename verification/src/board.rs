use vstd::prelude::*;

use crate::moves::Move;
use crate::piece::{piece_str, piece_text, Color, Kind, Piece};
use crate::pos::{on_board, Position};

verus! {

/// Whose turn it is.
#[derive(Clone, Copy, Debug, PartialEq, Eq, Structural)]
pub enum Player {
    White,
    Black,
}

impl Player {
    pub open spec fn spec_next(self) -> Player {
        match self {
            Player::White => Player::Black,
            Player::Black => Player::White,
        }
    }

    /// The player who moves after this one.
    pub fn next(&self) -> (r: Player)
        ensures
            r == self.spec_next(),
    {
        match self {
            Player::White => Player::Black,
            Player::Black => Player::White,
        }
    }

    pub open spec fn spec_color(self) -> Color {
        match self {
            Player::White => Color::White,
            Player::Black => Color::Black,
        }
    }

    /// The piece color this player owns.
    pub fn color(&self) -> (r: Color)
        ensures
            r == self.spec_color(),
    {
        match self {
            Player::White => Color::White,
            Player::Black => Color::Black,
        }
    }
}

/// The mathematical value of a board: 64 squares in row-major order
/// (index `y * 8 + x`) and the side to move.
pub ghost struct BoardView {
    pub pieces: Seq<Piece>,
    pub turn: Player,
}

impl BoardView {
    /// The one structural invariant: exactly 64 squares. (Each square is a
    /// well-formed occupant by construction of `Piece`.)
    pub open spec fn wf(self) -> bool {
        self.pieces.len() == 64
    }

    /// The occupant of square (x, y).
    pub open spec fn at(self, x: int, y: int) -> Piece {
        self.pieces[y * 8 + x]
    }

    /// True iff square (x, y) holds a piece of the side to move.
    pub open spec fn is_turn_at(self, x: int, y: int) -> bool {
        self.at(x, y).spec_has_color(self.turn.spec_color())
    }

    /// The board after a move: the piece at `start` lands on `end`
    /// (overwriting any occupant), `start` empties, the turn flips.
    pub open spec fn spec_apply(self, m: Move) -> BoardView {
        BoardView {
            pieces: self.pieces.update(m.end.linear(), self.pieces[m.start.linear()]).update(
                m.start.linear(),
                Piece::Empty,
            ),
            turn: self.turn.spec_next(),
        }
    }
}

/// The standard starting occupant of the square with linear index `i`.
pub open spec fn initial_piece(i: int) -> Piece {
    if i == 0 || i == 7 {
        Piece::Filled { color: Color::White, kind: Kind::Rook }
    } else if i == 1 || i == 6 {
        Piece::Filled { color: Color::White, kind: Kind::Knight }
    } else if i == 2 || i == 5 {
        Piece::Filled { color: Color::White, kind: Kind::Bishop }
    } else if i == 3 {
        Piece::Filled { color: Color::White, kind: Kind::Queen }
    } else if i == 4 {
        Piece::Filled { color: Color::White, kind: Kind::King }
    } else if 8 <= i < 16 {
        Piece::Filled { color: Color::White, kind: Kind::Pawn }
    } else if 48 <= i < 56 {
        Piece::Filled { color: Color::Black, kind: Kind::Pawn }
    } else if i == 56 || i == 63 {
        Piece::Filled { color: Color::Black, kind: Kind::Rook }
    } else if i == 57 || i == 62 {
        Piece::Filled { color: Color::Black, kind: Kind::Knight }
    } else if i == 58 || i == 61 {
        Piece::Filled { color: Color::Black, kind: Kind::Bishop }
    } else if i == 59 {
        Piece::Filled { color: Color::Black, kind: Kind::Queen }
    } else if i == 60 {
        Piece::Filled { color: Color::Black, kind: Kind::King }
    } else {
        Piece::Empty
    }
}

/// The standard starting position, White to move.
pub open spec fn initial_board() -> BoardView {
    BoardView { pieces: Seq::new(64, |i: int| initial_piece(i)), turn: Player::White }
}

/// A destination square a knight, bishop, rook, queen or king may land on:
/// empty, or held by the enemy of `c` (a capture).
pub open spec fn can_land(v: BoardView, c: Color, x: int, y: int) -> bool {
    v.at(x, y) == Piece::Empty || v.at(x, y).spec_has_color(c.spec_opposite())
}

/// The move from `start` to the square (x, y).
pub open spec fn target_move(start: Position, x: int, y: int) -> Move {
    Move { start, end: Position { x: x as i8, y: y as i8 } }
}

/// The moves (none or one) a fixed-offset leap from `start` contributes.
pub open spec fn leap_target(v: BoardView, start: Position, c: Color, dx: int, dy: int) -> Seq<
    Move,
> {
    let x = start.x + dx;
    let y = start.y + dy;
    if on_board(x, y) && can_land(v, c, x, y) {
        seq![target_move(start, x, y)]
    } else {
        Seq::empty()
    }
}

/// The moves (none or one) one pawn candidate offset contributes. The offset
/// is relative to the pawn's direction of play: White moves toward
/// increasing rank, Black's offsets are negated. The rules, any failing one
/// excluding the candidate: the destination is on the board; a straight
/// candidate needs an empty destination (pawns cannot capture ahead); the
/// double step needs the pawn on its start rank (1 for White, 6 for Black);
/// a diagonal candidate needs an enemy piece on the destination.
pub open spec fn pawn_target(v: BoardView, start: Position, c: Color, dx: int, dy: int) -> Seq<
    Move,
> {
    let ex = if c == Color::White {
        start.x + dx
    } else {
        start.x - dx
    };
    let ey = if c == Color::White {
        start.y + dy
    } else {
        start.y - dy
    };
    if !on_board(ex, ey) {
        Seq::empty()
    } else if (dy == 1 || dy == 2) && dx != 1 && dx != -1 && v.at(ex, ey) != Piece::Empty {
        Seq::empty()
    } else if dy == 2 && ((c == Color::White && start.y != 1) || (c == Color::Black && start.y
        != 6)) {
        Seq::empty()
    } else if (dx == 1 || dx == -1) && !v.at(ex, ey).spec_has_color(c.spec_opposite()) {
        Seq::empty()
    } else {
        seq![target_move(start, ex, ey)]
    }
}

/// Steps a ray walk can still take before leaving the board, counted on an
/// axis the direction moves along.
pub open spec fn ray_step_bound(dx: int, x: int, dy: int, y: int) -> int {
    if dx == 1 {
        8 - x
    } else if dx == -1 {
        x + 1
    } else if dy == 1 {
        8 - y
    } else {
        y + 1
    }
}

/// The moves of a ray walk in direction (dx, dy) standing at (x, y): an
/// empty square is a move and the walk continues; an enemy square is a
/// capturing move and the walk stops; an own-color square stops the walk
/// with no move.
pub open spec fn ray_from(
    v: BoardView,
    start: Position,
    c: Color,
    dx: int,
    dy: int,
    x: int,
    y: int,
) -> Seq<Move>
    decreases ray_step_bound(dx, x, dy, y),
        when (dx == -1 || dx == 0 || dx == 1) && (dy == -1 || dy == 0 || dy == 1) && !(dx == 0 && dy
            == 0)
{
    if !on_board(x, y) {
        Seq::empty()
    } else if v.at(x, y) == Piece::Empty {
        seq![target_move(start, x, y)] + ray_from(v, start, c, dx, dy, x + dx, y + dy)
    } else if v.at(x, y).spec_has_color(c.spec_opposite()) {
        seq![target_move(start, x, y)]
    } else {
        Seq::empty()
    }
}

/// A pawn's moves: single step, double step, the two diagonal captures.
pub open spec fn pawn_moves(v: BoardView, start: Position, c: Color) -> Seq<Move> {
    pawn_target(v, start, c, 0, 1) + pawn_target(v, start, c, 0, 2) + pawn_target(
        v,
        start,
        c,
        1,
        1,
    ) + pawn_target(v, start, c, -1, 1)
}

/// A knight's moves: the eight leap offsets.
pub open spec fn knight_moves(v: BoardView, start: Position, c: Color) -> Seq<Move> {
    leap_target(v, start, c, 1, 2) + leap_target(v, start, c, 2, 1) + leap_target(
        v,
        start,
        c,
        -1,
        2,
    ) + leap_target(v, start, c, -2, 1) + leap_target(v, start, c, 1, -2) + leap_target(
        v,
        start,
        c,
        2,
        -1,
    ) + leap_target(v, start, c, -1, -2) + leap_target(v, start, c, -2, -1)
}

/// A king's moves: the eight adjacent squares (no castling).
pub open spec fn king_moves(v: BoardView, start: Position, c: Color) -> Seq<Move> {
    leap_target(v, start, c, 1, 1) + leap_target(v, start, c, 1, -1) + leap_target(
        v,
        start,
        c,
        -1,
        1,
    ) + leap_target(v, start, c, -1, -1) + leap_target(v, start, c, 1, 0) + leap_target(
        v,
        start,
        c,
        0,
        1,
    ) + leap_target(v, start, c, -1, 0) + leap_target(v, start, c, 0, -1)
}

/// A bishop's moves: the four diagonal rays.
pub open spec fn bishop_moves(v: BoardView, start: Position, c: Color) -> Seq<Move> {
    ray_from(v, start, c, 1, 1, start.x + 1, start.y + 1) + ray_from(
        v,
        start,
        c,
        1,
        -1,
        start.x + 1,
        start.y - 1,
    ) + ray_from(v, start, c, -1, 1, start.x - 1, start.y + 1) + ray_from(
        v,
        start,
        c,
        -1,
        -1,
        start.x - 1,
        start.y - 1,
    )
}

/// A rook's moves: the four orthogonal rays.
pub open spec fn rook_moves(v: BoardView, start: Position, c: Color) -> Seq<Move> {
    ray_from(v, start, c, 1, 0, start.x + 1, start.y as int) + ray_from(
        v,
        start,
        c,
        0,
        1,
        start.x as int,
        start.y + 1,
    ) + ray_from(v, start, c, -1, 0, start.x - 1, start.y as int) + ray_from(
        v,
        start,
        c,
        0,
        -1,
        start.x as int,
        start.y - 1,
    )
}

/// A queen's moves: the bishop's followed by the rook's.
pub open spec fn queen_moves(v: BoardView, start: Position, c: Color) -> Seq<Move> {
    bishop_moves(v, start, c) + rook_moves(v, start, c)
}

/// The movement-pattern-legal moves of the piece on `start`, dispatched on
/// its kind; an empty square contributes no moves.
pub open spec fn moves_for(v: BoardView, start: Position) -> Seq<Move> {
    match v.at(start.x as int, start.y as int) {
        Piece::Empty => Seq::empty(),
        Piece::Filled { color, kind } => match kind {
            Kind::Pawn => pawn_moves(v, start, color),
            Kind::Knight => knight_moves(v, start, color),
            Kind::Bishop => bishop_moves(v, start, color),
            Kind::Rook => rook_moves(v, start, color),
            Kind::Queen => queen_moves(v, start, color),
            Kind::King => king_moves(v, start, color),
        },
    }
}

/// What the square with linear index `i` contributes to the side to move's
/// aggregate move list.
pub open spec fn moves_from_square(v: BoardView, i: int) -> Seq<Move> {
    if v.pieces[i].spec_has_color(v.turn.spec_color()) {
        moves_for(v, Position { x: (i % 8) as i8, y: (i / 8) as i8 })
    } else {
        Seq::empty()
    }
}

/// The side to move's moves contributed by squares `i..64`, in ascending
/// linear-index order.
pub open spec fn all_moves_from(v: BoardView, i: int) -> Seq<Move>
    decreases 64 - i,
{
    if i >= 64 {
        Seq::empty()
    } else {
        moves_from_square(v, i) + all_moves_from(v, i + 1)
    }
}

/// All moves of the side to move: square by square in ascending linear
/// index, each square's moves in generation order.
pub open spec fn all_moves(v: BoardView) -> Seq<Move> {
    all_moves_from(v, 0)
}

/// The occupied squares among `i..64`, ascending.
pub open spec fn occupied_from(v: BoardView, i: int) -> Seq<Position>
    decreases 64 - i,
{
    if i >= 64 {
        Seq::empty()
    } else {
        (if v.pieces[i] != Piece::Empty {
            seq![Position { x: (i % 8) as i8, y: (i / 8) as i8 }]
        } else {
            Seq::empty()
        }) + occupied_from(v, i + 1)
    }
}

/// A ray contributes at most one move per square it can still visit, and at
/// most 8 in all.
pub proof fn lemma_ray_len(v: BoardView, start: Position, c: Color, dx: int, dy: int, x: int, y: int)
    requires
        dx == -1 || dx == 0 || dx == 1,
        dy == -1 || dy == 0 || dy == 1,
        !(dx == 0 && dy == 0),
    ensures
        ray_from(v, start, c, dx, dy, x, y).len() <= 8,
        !on_board(x, y) ==> ray_from(v, start, c, dx, dy, x, y).len() == 0,
        on_board(x, y) ==> ray_from(v, start, c, dx, dy, x, y).len() <= ray_step_bound(dx, x, dy, y),
    decreases ray_step_bound(dx, x, dy, y),
{
    if on_board(x, y) && v.at(x, y) == Piece::Empty {
        lemma_ray_len(v, start, c, dx, dy, x + dx, y + dy);
    }
}

/// The four diagonal rays contribute at most 32 moves.
pub proof fn lemma_bishop_len(v: BoardView, start: Position, c: Color)
    ensures
        bishop_moves(v, start, c).len() <= 32,
{
    lemma_ray_len(v, start, c, 1, 1, start.x + 1, start.y + 1);
    lemma_ray_len(v, start, c, 1, -1, start.x + 1, start.y - 1);
    lemma_ray_len(v, start, c, -1, 1, start.x - 1, start.y + 1);
    lemma_ray_len(v, start, c, -1, -1, start.x - 1, start.y - 1);
}

/// The four orthogonal rays contribute at most 32 moves.
pub proof fn lemma_rook_len(v: BoardView, start: Position, c: Color)
    ensures
        rook_moves(v, start, c).len() <= 32,
{
    lemma_ray_len(v, start, c, 1, 0, start.x + 1, start.y as int);
    lemma_ray_len(v, start, c, 0, 1, start.x as int, start.y + 1);
    lemma_ray_len(v, start, c, -1, 0, start.x - 1, start.y as int);
    lemma_ray_len(v, start, c, 0, -1, start.x as int, start.y - 1);
}

/// No square contributes more than 64 moves.
pub proof fn lemma_moves_for_len(v: BoardView, start: Position)
    ensures
        moves_for(v, start).len() <= 64,
{
    match v.at(start.x as int, start.y as int) {
        Piece::Empty => {},
        Piece::Filled { color, kind } => match kind {
            Kind::Pawn => {},
            Kind::Knight => {},
            Kind::King => {},
            Kind::Bishop => {
                lemma_bishop_len(v, start, color);
            },
            Kind::Rook => {
                lemma_rook_len(v, start, color);
            },
            Kind::Queen => {
                lemma_bishop_len(v, start, color);
                lemma_rook_len(v, start, color);
            },
        },
    }
}

/// The squares `i..64` contribute at most 64 moves each.
pub proof fn lemma_all_moves_from_len(v: BoardView, i: int)
    requires
        0 <= i <= 64,
    ensures
        all_moves_from(v, i).len() <= (64 - i) * 64,
    decreases 64 - i,
{
    if i < 64 {
        lemma_moves_for_len(v, Position { x: (i % 8) as i8, y: (i / 8) as i8 });
        lemma_all_moves_from_len(v, i + 1);
    }
}

/// A position offers at most 4096 moves.
pub proof fn lemma_all_moves_len(v: BoardView)
    ensures
        all_moves(v).len() <= 4096,
{
    lemma_all_moves_from_len(v, 0);
}

/// One display row of the board from column `col` on: each square's
/// character followed by a space, the row closed by a newline.
pub open spec fn row_text(v: BoardView, row: int, col: int) -> Seq<char>
    decreases 8 - col,
{
    if col >= 8 {
        seq!['\n']
    } else {
        piece_text(v.pieces[row * 8 + col]) + seq![' '] + row_text(v, row, col + 1)
    }
}

/// The display text of the board from row `row` on.
pub open spec fn board_text_from(v: BoardView, row: int) -> Seq<char>
    decreases 8 - row,
{
    if row >= 8 {
        Seq::empty()
    } else {
        row_text(v, row, 0) + board_text_from(v, row + 1)
    }
}

/// The display text of the board: one character per square, squares of a
/// row separated (and followed) by a space, rows by a newline, row-major
/// from linear index 0.
pub open spec fn board_text(v: BoardView) -> Seq<char> {
    board_text_from(v, 0)
}

/// What soundness of generation means for one move: it starts where asked,
/// stays on the board, and never lands on a piece of the mover's own color.
pub open spec fn sound_move(v: BoardView, c: Color, start: Position, m: Move) -> bool {
    &&& m.start == start
    &&& m.end.spec_valid()
    &&& !v.at(m.end.x as int, m.end.y as int).spec_has_color(c)
}

/// Every move a ray walk yields is sound.
pub proof fn lemma_ray_sound(
    v: BoardView,
    start: Position,
    c: Color,
    dx: int,
    dy: int,
    x: int,
    y: int,
)
    requires
        dx == -1 || dx == 0 || dx == 1,
        dy == -1 || dy == 0 || dy == 1,
        !(dx == 0 && dy == 0),
    ensures
        forall|k: int|
            0 <= k < ray_from(v, start, c, dx, dy, x, y).len() ==> sound_move(
                v,
                c,
                start,
                ray_from(v, start, c, dx, dy, x, y)[k],
            ),
    decreases ray_step_bound(dx, x, dy, y),
{
    lemma_opposite_ne(c);
    let r = ray_from(v, start, c, dx, dy, x, y);
    if on_board(x, y) && v.at(x, y) == Piece::Empty {
        lemma_ray_sound(v, start, c, dx, dy, x + dx, y + dy);
        let rest = ray_from(v, start, c, dx, dy, x + dx, y + dy);
        assert forall|k: int| 0 <= k < r.len() implies sound_move(v, c, start, r[k]) by {
            if k == 0 {
                assert(r[k] == target_move(start, x, y));
            } else {
                assert(r[k] == rest[k - 1]);
            }
        }
    }
}

/// The two colors differ from their opposites.
pub proof fn lemma_opposite_ne(c: Color)
    ensures
        c.spec_opposite() != c,
{
    match c {
        Color::White => {},
        Color::Black => {},
    }
}

/// Every move one pawn candidate yields is sound.
pub proof fn lemma_pawn_target_sound(v: BoardView, start: Position, c: Color, dx: int, dy: int)
    requires
        dx == -1 || dx == 0 || dx == 1,
        dy == 1 || dy == 2,
    ensures
        forall|k: int|
            0 <= k < pawn_target(v, start, c, dx, dy).len() ==> sound_move(
                v,
                c,
                start,
                pawn_target(v, start, c, dx, dy)[k],
            ),
{
}

/// Every move one leap candidate yields is sound.
pub proof fn lemma_leap_target_sound(v: BoardView, start: Position, c: Color, dx: int, dy: int)
    ensures
        forall|k: int|
            0 <= k < leap_target(v, start, c, dx, dy).len() ==> sound_move(
                v,
                c,
                start,
                leap_target(v, start, c, dx, dy)[k],
            ),
{
}

/// Every move generated for the piece on `start` is sound for that piece's
/// color.
/// Every move of the four pawn candidates is sound.
pub proof fn lemma_pawn_sound(v: BoardView, start: Position, c: Color)
    ensures
        forall|k: int|
            0 <= k < pawn_moves(v, start, c).len() ==> sound_move(v, c, start, pawn_moves(v, start, c)[k]),
{
    lemma_pawn_target_sound(v, start, c, 0, 1);
    lemma_pawn_target_sound(v, start, c, 0, 2);
    lemma_pawn_target_sound(v, start, c, 1, 1);
    lemma_pawn_target_sound(v, start, c, -1, 1);
}

/// Every move of the eight knight leaps is sound.
pub proof fn lemma_knight_sound(v: BoardView, start: Position, c: Color)
    ensures
        forall|k: int|
            0 <= k < knight_moves(v, start, c).len() ==> sound_move(v, c, start, knight_moves(v, start, c)[k]),
{
    lemma_leap_target_sound(v, start, c, 1, 2);
    lemma_leap_target_sound(v, start, c, 2, 1);
    lemma_leap_target_sound(v, start, c, -1, 2);
    lemma_leap_target_sound(v, start, c, -2, 1);
    lemma_leap_target_sound(v, start, c, 1, -2);
    lemma_leap_target_sound(v, start, c, 2, -1);
    lemma_leap_target_sound(v, start, c, -1, -2);
    lemma_leap_target_sound(v, start, c, -2, -1);
}

/// Every move of the eight king steps is sound.
pub proof fn lemma_king_sound(v: BoardView, start: Position, c: Color)
    ensures
        forall|k: int|
            0 <= k < king_moves(v, start, c).len() ==> sound_move(v, c, start, king_moves(v, start, c)[k]),
{
    lemma_leap_target_sound(v, start, c, 1, 1);
    lemma_leap_target_sound(v, start, c, 1, -1);
    lemma_leap_target_sound(v, start, c, -1, 1);
    lemma_leap_target_sound(v, start, c, -1, -1);
    lemma_leap_target_sound(v, start, c, 1, 0);
    lemma_leap_target_sound(v, start, c, 0, 1);
    lemma_leap_target_sound(v, start, c, -1, 0);
    lemma_leap_target_sound(v, start, c, 0, -1);
}

/// Every move of the four diagonal rays is sound.
pub proof fn lemma_bishop_sound(v: BoardView, start: Position, c: Color)
    ensures
        forall|k: int|
            0 <= k < bishop_moves(v, start, c).len() ==> sound_move(v, c, start, bishop_moves(v, start, c)[k]),
{
    lemma_ray_sound(v, start, c, 1, 1, start.x + 1, start.y + 1);
    lemma_ray_sound(v, start, c, 1, -1, start.x + 1, start.y - 1);
    lemma_ray_sound(v, start, c, -1, 1, start.x - 1, start.y + 1);
    lemma_ray_sound(v, start, c, -1, -1, start.x - 1, start.y - 1);
}

/// Every move of the four orthogonal rays is sound.
pub proof fn lemma_rook_sound(v: BoardView, start: Position, c: Color)
    ensures
        forall|k: int|
            0 <= k < rook_moves(v, start, c).len() ==> sound_move(v, c, start, rook_moves(v, start, c)[k]),
{
    lemma_ray_sound(v, start, c, 1, 0, start.x + 1, start.y as int);
    lemma_ray_sound(v, start, c, 0, 1, start.x as int, start.y + 1);
    lemma_ray_sound(v, start, c, -1, 0, start.x - 1, start.y as int);
    lemma_ray_sound(v, start, c, 0, -1, start.x as int, start.y - 1);
}

/// Every move generated for the piece on `start` is sound for that piece's
/// color.
pub proof fn lemma_moves_for_sound(v: BoardView, start: Position, c: Color)
    requires
        v.at(start.x as int, start.y as int).spec_has_color(c),
    ensures
        forall|k: int|
            0 <= k < moves_for(v, start).len() ==> sound_move(v, c, start, moves_for(v, start)[k]),
{
    match v.at(start.x as int, start.y as int) {
        Piece::Empty => {},
        Piece::Filled { color, kind } => {
            match kind {
                Kind::Pawn => {
                    lemma_pawn_sound(v, start, c);
                },
                Kind::Knight => {
                    lemma_knight_sound(v, start, c);
                },
                Kind::King => {
                    lemma_king_sound(v, start, c);
                },
                Kind::Bishop => {
                    lemma_bishop_sound(v, start, c);
                },
                Kind::Rook => {
                    lemma_rook_sound(v, start, c);
                },
                Kind::Queen => {
                    lemma_bishop_sound(v, start, c);
                    lemma_rook_sound(v, start, c);
                },
            }
        },
    }
}

/// What soundness means for an aggregate move of the side to move.
pub open spec fn sound_turn_move(v: BoardView, m: Move) -> bool {
    &&& m.start.spec_valid()
    &&& m.end.spec_valid()
    &&& v.at(m.start.x as int, m.start.y as int).spec_has_color(v.turn.spec_color())
    &&& !v.at(m.end.x as int, m.end.y as int).spec_has_color(v.turn.spec_color())
}

/// Every aggregate move contributed by squares `i..64` is sound.
pub proof fn lemma_all_moves_from_sound(v: BoardView, i: int)
    requires
        0 <= i <= 64,
    ensures
        forall|k: int|
            0 <= k < all_moves_from(v, i).len() ==> sound_turn_move(v, all_moves_from(v, i)[k]),
    decreases 64 - i,
{
    if i < 64 {
        let head = moves_from_square(v, i);
        let tail = all_moves_from(v, i + 1);
        let start = Position { x: (i % 8) as i8, y: (i / 8) as i8 };
        if v.pieces[i].spec_has_color(v.turn.spec_color()) {
            assert(start.linear() == i);
            lemma_moves_for_sound(v, start, v.turn.spec_color());
        }
        lemma_all_moves_from_sound(v, i + 1);
        assert forall|k: int| 0 <= k < all_moves_from(v, i).len() implies sound_turn_move(
            v,
            all_moves_from(v, i)[k],
        ) by {
            if k < head.len() {
                assert(all_moves_from(v, i)[k] == head[k]);
                assert(sound_move(v, v.turn.spec_color(), start, head[k]));
                assert(start.spec_valid());
                assert(start.linear() == i);
            } else {
                assert(all_moves_from(v, i)[k] == tail[k - head.len()]);
            }
        }
    }
}

/// No generated move captures the moving side's own piece: every move of
/// the side to move starts on an own piece, stays on the board, and lands
/// on an empty or enemy square.
pub proof fn lemma_no_own_capture(v: BoardView, k: int)
    requires
        v.wf(),
        0 <= k < all_moves(v).len(),
    ensures
        sound_turn_move(v, all_moves(v)[k]),
{
    lemma_all_moves_from_sound(v, 0);
}

/// After applying any generated move, the move lists regenerated for the
/// other side (now to move) still contain no move onto that side's own
/// piece; in particular no move list ever offers the capture of one's own
/// piece, before or after any ply.
pub proof fn lemma_no_own_capture_after_move(v: BoardView, i: int, j: int)
    requires
        v.wf(),
        0 <= i < all_moves(v).len(),
        0 <= j < all_moves(v.spec_apply(all_moves(v)[i])).len(),
    ensures
        sound_turn_move(v.spec_apply(all_moves(v)[i]), all_moves(v.spec_apply(all_moves(v)[i]))[j]),
{
    lemma_no_own_capture(v, i);
    assert(v.spec_apply(all_moves(v)[i]).wf());
    lemma_no_own_capture(v.spec_apply(all_moves(v)[i]), j);
}

/// A pawn on its start rank and its two straight moves. With both straight
/// destinations empty, the single and the double step are both generated.
/// An occupant of the single-step square removes the single step; the
/// double step checks only its own destination square, so both straight
/// moves are gone exactly when both destination squares are occupied.
pub proof fn lemma_pawn_start_rank(v: BoardView, start: Position, c: Color)
    requires
        v.wf(),
        start.spec_valid(),
        c == Color::White ==> start.y == 1,
        c == Color::Black ==> start.y == 6,
    ensures
        ({
            let dir: int = if c == Color::White { 1int } else { -1int };
            let single = Move { start, end: Position { x: start.x, y: (start.y + dir) as i8 } };
            let double = Move { start, end: Position { x: start.x, y: (start.y + 2 * dir) as i8 } };
            let pm = pawn_moves(v, start, c);
            &&& (v.at(start.x as int, start.y + dir) == Piece::Empty && v.at(
                start.x as int,
                start.y + 2 * dir,
            ) == Piece::Empty ==> pm.contains(single) && pm.contains(double))
            &&& (v.at(start.x as int, start.y + dir) != Piece::Empty ==> !pm.contains(single))
            &&& (v.at(start.x as int, start.y + dir) != Piece::Empty && v.at(
                start.x as int,
                start.y + 2 * dir,
            ) != Piece::Empty ==> !pm.contains(single) && !pm.contains(double))
        }),
{
    let dir: int = if c == Color::White { 1int } else { -1int };
    let single = Move { start, end: Position { x: start.x, y: (start.y + dir) as i8 } };
    let double = Move { start, end: Position { x: start.x, y: (start.y + 2 * dir) as i8 } };
    let t1 = pawn_target(v, start, c, 0, 1);
    let t2 = pawn_target(v, start, c, 0, 2);
    let t3 = pawn_target(v, start, c, 1, 1);
    let t4 = pawn_target(v, start, c, -1, 1);
    let pm = pawn_moves(v, start, c);
    assert(pm == t1 + t2 + t3 + t4);
    if v.at(start.x as int, start.y + dir) == Piece::Empty && v.at(
        start.x as int,
        start.y + 2 * dir,
    ) == Piece::Empty {
        assert(t1 == seq![single]);
        assert(t2 == seq![double]);
        assert(pm[0] == single);
        assert(pm[1] == double);
    }
    if v.at(start.x as int, start.y + dir) != Piece::Empty {
        assert(t1 == Seq::<Move>::empty());
        assert forall|k: int| 0 <= k < pm.len() implies pm[k] != single by {
            if k < t1.len() + t2.len() {
                assert(pm[k] == t2[k - t1.len()]);
                assert(pm[k].end.y != single.end.y);
            } else if k < t1.len() + t2.len() + t3.len() {
                assert(pm[k] == t3[k - t1.len() - t2.len()]);
                assert(pm[k].end.x != single.end.x);
            } else {
                assert(pm[k] == t4[k - t1.len() - t2.len() - t3.len()]);
                assert(pm[k].end.x != single.end.x);
            }
        }
        if v.at(start.x as int, start.y + 2 * dir) != Piece::Empty {
            assert(t2 == Seq::<Move>::empty());
            assert forall|k: int| 0 <= k < pm.len() implies pm[k] != double by {
                if k < t1.len() + t2.len() + t3.len() {
                    assert(pm[k] == t3[k - t1.len() - t2.len()]);
                    assert(pm[k].end.x != double.end.x);
                } else {
                    assert(pm[k] == t4[k - t1.len() - t2.len() - t3.len()]);
                    assert(pm[k].end.x != double.end.x);
                }
            }
        }
    }
}

/// What one optional candidate contributes to a move list.
pub open spec fn opt_seq(m: Option<Move>) -> Seq<Move> {
    match m {
        Some(mv) => seq![mv],
        None => Seq::empty(),
    }
}

/// Appends the contribution of one optional candidate.
fn push_opt(moves: &mut Vec<Move>, m: Option<Move>)
    ensures
        final(moves)@ == old(moves)@ + opt_seq(m),
{
    match m {
        Some(mv) => {
            moves.push(mv);
            proof {
                assert(moves@ =~= old(moves)@ + opt_seq(m));
            }
        },
        None => {
            proof {
                assert(moves@ =~= old(moves)@ + opt_seq(m));
            }
        },
    }
}

/// The 64-square position plus whose turn it is.
#[derive(Clone, Debug)]
pub struct Board {
    pub pieces: Vec<Piece>,
    pub turn: Player,
}

impl View for Board {
    type V = BoardView;

    open spec fn view(&self) -> BoardView {
        BoardView { pieces: self.pieces@, turn: self.turn }
    }
}

impl Default for Board {
    /// The standard starting layout, White to move.
    fn default() -> (r: Board)
        ensures
            r@ == initial_board(),
    {
        let mut pieces: Vec<Piece> = Vec::new();
        pieces.push(Piece::Filled { color: Color::White, kind: Kind::Rook });
        pieces.push(Piece::Filled { color: Color::White, kind: Kind::Knight });
        pieces.push(Piece::Filled { color: Color::White, kind: Kind::Bishop });
        pieces.push(Piece::Filled { color: Color::White, kind: Kind::Queen });
        pieces.push(Piece::Filled { color: Color::White, kind: Kind::King });
        pieces.push(Piece::Filled { color: Color::White, kind: Kind::Bishop });
        pieces.push(Piece::Filled { color: Color::White, kind: Kind::Knight });
        pieces.push(Piece::Filled { color: Color::White, kind: Kind::Rook });
        let mut i: usize = 8;
        while i < 16
            invariant
                8 <= i <= 16,
                pieces@.len() == i,
                forall|j: int| 0 <= j < i ==> pieces@[j] == initial_piece(j),
            decreases 16 - i,
        {
            pieces.push(Piece::Filled { color: Color::White, kind: Kind::Pawn });
            i = i + 1;
        }
        while i < 48
            invariant
                16 <= i <= 48,
                pieces@.len() == i,
                forall|j: int| 0 <= j < i ==> pieces@[j] == initial_piece(j),
            decreases 48 - i,
        {
            pieces.push(Piece::Empty);
            i = i + 1;
        }
        while i < 56
            invariant
                48 <= i <= 56,
                pieces@.len() == i,
                forall|j: int| 0 <= j < i ==> pieces@[j] == initial_piece(j),
            decreases 56 - i,
        {
            pieces.push(Piece::Filled { color: Color::Black, kind: Kind::Pawn });
            i = i + 1;
        }
        pieces.push(Piece::Filled { color: Color::Black, kind: Kind::Rook });
        pieces.push(Piece::Filled { color: Color::Black, kind: Kind::Knight });
        pieces.push(Piece::Filled { color: Color::Black, kind: Kind::Bishop });
        pieces.push(Piece::Filled { color: Color::Black, kind: Kind::Queen });
        pieces.push(Piece::Filled { color: Color::Black, kind: Kind::King });
        pieces.push(Piece::Filled { color: Color::Black, kind: Kind::Bishop });
        pieces.push(Piece::Filled { color: Color::Black, kind: Kind::Knight });
        pieces.push(Piece::Filled { color: Color::Black, kind: Kind::Rook });
        let b = Board { pieces, turn: Player::White };
        proof {
            assert(b@.pieces =~= initial_board().pieces);
        }
        b
    }
}

impl Board {
    /// A fresh board in the standard starting position.
    pub fn new() -> (r: Board)
        ensures
            r@ == initial_board(),
    {
        Board::default()
    }

    /// An owned copy of the position, for hypothetical lines: the search
    /// never mutates the board it was handed.
    pub fn duplicate(&self) -> (r: Board)
        ensures
            r@ == self@,
    {
        let mut pieces: Vec<Piece> = Vec::new();
        let mut i: usize = 0;
        while i < self.pieces.len()
            invariant
                i <= self.pieces@.len(),
                pieces@.len() == i,
                forall|j: int| 0 <= j < i ==> pieces@[j] == self.pieces@[j],
            decreases self.pieces@.len() - i,
        {
            pieces.push(self.pieces[i]);
            i = i + 1;
        }
        proof {
            assert(pieces@ =~= self.pieces@);
        }
        Board { pieces, turn: self.turn }
    }

    /// The occupant of a valid square.
    pub fn piece_at(&self, pos: Position) -> (r: Piece)
        requires
            self@.wf(),
            pos.spec_valid(),
        ensures
            r == self@.at(pos.x as int, pos.y as int),
    {
        self.pieces[pos.y as usize * 8 + pos.x as usize]
    }

    /// True iff the piece at (row, col) belongs to the side to move; an
    /// empty square belongs to nobody.
    pub fn is_turn_for(&self, row: i8, col: i8) -> (r: bool)
        requires
            self@.wf(),
            0 <= row < 8,
            0 <= col < 8,
        ensures
            r == self@.is_turn_at(col as int, row as int),
    {
        let piece = self.pieces[row as usize * 8 + col as usize];
        piece.has_color(self.turn.color())
    }

    /// The board as display text (see `board_text`).
    pub fn to_text(&self) -> (r: String)
        requires
            self@.wf(),
        ensures
            r@ == board_text(self@),
    {
        let mut out = String::new();
        let mut row: usize = 0;
        while row < 8
            invariant
                self@.wf(),
                0 <= row <= 8,
                out@ + board_text_from(self@, row as int) == board_text(self@),
            decreases 8 - row,
        {
            let mut col: usize = 0;
            while col < 8
                invariant
                    self@.wf(),
                    0 <= row < 8,
                    0 <= col <= 8,
                    out@ + row_text(self@, row as int, col as int) + board_text_from(
                        self@,
                        row as int + 1,
                    ) == board_text(self@),
                decreases 8 - col,
            {
                let piece = self.pieces[row * 8 + col];
                out.append(piece_str(&piece));
                out.append(" ");
                proof {
                    reveal_strlit(" ");
                    assert(out@ + row_text(self@, row as int, col as int + 1) + board_text_from(
                        self@,
                        row as int + 1,
                    ) =~= board_text(self@));
                }
                col = col + 1;
            }
            out.append("\n");
            proof {
                reveal_strlit("\n");
                assert(out@ + board_text_from(self@, row as int + 1) =~= board_text(self@));
            }
            row = row + 1;
        }
        out
    }

    /// No terminal-state detection exists: the game is never reported over.
    pub fn is_game_over(&self) -> (r: bool)
        ensures
            r == false,
    {
        false
    }

    /// All squares holding a piece, in ascending linear-index order.
    pub fn positions(&self) -> (r: Vec<Position>)
        requires
            self@.wf(),
        ensures
            r@ == occupied_from(self@, 0),
    {
        let mut positions: Vec<Position> = Vec::new();
        let mut i: i32 = 0;
        while i < 64
            invariant
                self@.wf(),
                0 <= i <= 64,
                positions@ + occupied_from(self@, i as int) == occupied_from(self@, 0),
            decreases 64 - i,
        {
            let pos = Position::from_linear_index(i);
            if !self.piece_at(pos).is_empty() {
                positions.push(pos);
            }
            proof {
                assert(positions@ + occupied_from(self@, i + 1) =~= occupied_from(self@, 0));
            }
            i = i + 1;
        }
        positions
    }

    /// One leap candidate: the move to `start + (dx, dy)` if that square is
    /// on the board and empty or enemy-held.
    fn try_leap(&self, start: Position, c: Color, dx: i8, dy: i8) -> (r: Option<Move>)
        requires
            self@.wf(),
            start.spec_valid(),
            -2 <= dx <= 2,
            -2 <= dy <= 2,
        ensures
            opt_seq(r) == leap_target(self@, start, c, dx as int, dy as int),
    {
        let pos = Position { x: start.x + dx, y: start.y + dy };
        if pos.is_valid() {
            let end_piece = self.piece_at(pos);
            if end_piece.is_empty() || end_piece.has_color(c.opposite()) {
                Some(Move { start, end: pos })
            } else {
                None
            }
        } else {
            None
        }
    }

    /// One pawn candidate, under the pawn rules (see `pawn_target`).
    fn try_pawn(&self, start: Position, c: Color, dx: i8, dy: i8) -> (r: Option<Move>)
        requires
            self@.wf(),
            start.spec_valid(),
            dx == -1 || dx == 0 || dx == 1,
            dy == 1 || dy == 2,
        ensures
            opt_seq(r) == pawn_target(self@, start, c, dx as int, dy as int),
    {
        let end = if c == Color::White {
            Position { x: start.x + dx, y: start.y + dy }
        } else {
            Position { x: start.x - dx, y: start.y - dy }
        };
        if !end.is_valid() {
            return None;
        }
        let dest = self.piece_at(end);
        if (dy == 1 || dy == 2) && dx != 1 && dx != -1 && !dest.is_empty() {
            return None;
        }
        if dy == 2 && ((c == Color::White && start.y != 1) || (c == Color::Black && start.y != 6)) {
            return None;
        }
        if (dx == 1 || dx == -1) && !dest.has_color(c.opposite()) {
            return None;
        }
        Some(Move { start, end })
    }

    /// Walks one ray: empty squares are moves and the walk goes on; an
    /// enemy square is a final capturing move; an own piece stops the walk.
    fn walk_ray(&self, start: Position, c: Color, dx: i8, dy: i8) -> (r: Vec<Move>)
        requires
            self@.wf(),
            start.spec_valid(),
            dx == -1 || dx == 0 || dx == 1,
            dy == -1 || dy == 0 || dy == 1,
            !(dx == 0 && dy == 0),
        ensures
            r@ == ray_from(
                self@,
                start,
                c,
                dx as int,
                dy as int,
                start.x + dx,
                start.y + dy,
            ),
    {
        let mut moves: Vec<Move> = Vec::new();
        let mut x: i8 = start.x + dx;
        let mut y: i8 = start.y + dy;
        while 0 <= x && x < 8 && 0 <= y && y < 8
            invariant_except_break
                self@.wf(),
                dx == -1 || dx == 0 || dx == 1,
                dy == -1 || dy == 0 || dy == 1,
                !(dx == 0 && dy == 0),
                -2 <= x <= 9,
                -2 <= y <= 9,
                moves@ + ray_from(self@, start, c, dx as int, dy as int, x as int, y as int)
                    == ray_from(
                    self@,
                    start,
                    c,
                    dx as int,
                    dy as int,
                    start.x + dx,
                    start.y + dy,
                ),
            ensures
                moves@ == ray_from(
                    self@,
                    start,
                    c,
                    dx as int,
                    dy as int,
                    start.x + dx,
                    start.y + dy,
                ),
            decreases ray_step_bound(dx as int, x as int, dy as int, y as int),
        {
            let pos = Position { x, y };
            let end_piece = self.piece_at(pos);
            if end_piece.is_empty() {
                moves.push(Move { start, end: pos });
                proof {
                    assert(moves@ + ray_from(
                        self@,
                        start,
                        c,
                        dx as int,
                        dy as int,
                        x + dx,
                        y + dy,
                    ) =~= ray_from(
                        self@,
                        start,
                        c,
                        dx as int,
                        dy as int,
                        start.x + dx,
                        start.y + dy,
                    ));
                }
                x = x + dx;
                y = y + dy;
            } else if end_piece.has_color(c.opposite()) {
                moves.push(Move { start, end: pos });
                proof {
                    assert(moves@ =~= ray_from(
                        self@,
                        start,
                        c,
                        dx as int,
                        dy as int,
                        start.x + dx,
                        start.y + dy,
                    ));
                }
                break ;
            } else {
                proof {
                    assert(moves@ =~= ray_from(
                        self@,
                        start,
                        c,
                        dx as int,
                        dy as int,
                        start.x + dx,
                        start.y + dy,
                    ));
                }
                break ;
            }
        }
        moves
    }

    /// The four pawn candidates, in candidate order.
    pub fn generate_pawn_moves(&self, idx: Position, color: Color) -> (r: Vec<Move>)
        requires
            self@.wf(),
            idx.spec_valid(),
        ensures
            r@ == pawn_moves(self@, idx, color),
    {
        let mut moves: Vec<Move> = Vec::new();
        push_opt(&mut moves, self.try_pawn(idx, color, 0, 1));
        push_opt(&mut moves, self.try_pawn(idx, color, 0, 2));
        push_opt(&mut moves, self.try_pawn(idx, color, 1, 1));
        push_opt(&mut moves, self.try_pawn(idx, color, -1, 1));
        proof {
            assert(moves@ =~= pawn_moves(self@, idx, color));
        }
        moves
    }

    /// The eight knight leaps, in offset order.
    pub fn generate_knight_moves(&self, idx: Position, color: Color) -> (r: Vec<Move>)
        requires
            self@.wf(),
            idx.spec_valid(),
        ensures
            r@ == knight_moves(self@, idx, color),
    {
        let mut moves: Vec<Move> = Vec::new();
        push_opt(&mut moves, self.try_leap(idx, color, 1, 2));
        push_opt(&mut moves, self.try_leap(idx, color, 2, 1));
        push_opt(&mut moves, self.try_leap(idx, color, -1, 2));
        push_opt(&mut moves, self.try_leap(idx, color, -2, 1));
        push_opt(&mut moves, self.try_leap(idx, color, 1, -2));
        push_opt(&mut moves, self.try_leap(idx, color, 2, -1));
        push_opt(&mut moves, self.try_leap(idx, color, -1, -2));
        push_opt(&mut moves, self.try_leap(idx, color, -2, -1));
        proof {
            assert(moves@ =~= knight_moves(self@, idx, color));
        }
        moves
    }

    /// The eight adjacent squares, in offset order.
    pub fn generate_king_moves(&self, idx: Position, color: Color) -> (r: Vec<Move>)
        requires
            self@.wf(),
            idx.spec_valid(),
        ensures
            r@ == king_moves(self@, idx, color),
    {
        let mut moves: Vec<Move> = Vec::new();
        push_opt(&mut moves, self.try_leap(idx, color, 1, 1));
        push_opt(&mut moves, self.try_leap(idx, color, 1, -1));
        push_opt(&mut moves, self.try_leap(idx, color, -1, 1));
        push_opt(&mut moves, self.try_leap(idx, color, -1, -1));
        push_opt(&mut moves, self.try_leap(idx, color, 1, 0));
        push_opt(&mut moves, self.try_leap(idx, color, 0, 1));
        push_opt(&mut moves, self.try_leap(idx, color, -1, 0));
        push_opt(&mut moves, self.try_leap(idx, color, 0, -1));
        proof {
            assert(moves@ =~= king_moves(self@, idx, color));
        }
        moves
    }

    /// The four diagonal rays, in ray order.
    pub fn generate_bishop_moves(&self, idx: Position, color: Color) -> (r: Vec<Move>)
        requires
            self@.wf(),
            idx.spec_valid(),
        ensures
            r@ == bishop_moves(self@, idx, color),
    {
        let mut moves = self.walk_ray(idx, color, 1, 1);
        let mut m2 = self.walk_ray(idx, color, 1, -1);
        moves.append(&mut m2);
        let mut m3 = self.walk_ray(idx, color, -1, 1);
        moves.append(&mut m3);
        let mut m4 = self.walk_ray(idx, color, -1, -1);
        moves.append(&mut m4);
        proof {
            assert(moves@ =~= bishop_moves(self@, idx, color));
        }
        moves
    }

    /// The four orthogonal rays, in ray order.
    pub fn generate_rook_moves(&self, idx: Position, color: Color) -> (r: Vec<Move>)
        requires
            self@.wf(),
            idx.spec_valid(),
        ensures
            r@ == rook_moves(self@, idx, color),
    {
        let mut moves = self.walk_ray(idx, color, 1, 0);
        let mut m2 = self.walk_ray(idx, color, 0, 1);
        moves.append(&mut m2);
        let mut m3 = self.walk_ray(idx, color, -1, 0);
        moves.append(&mut m3);
        let mut m4 = self.walk_ray(idx, color, 0, -1);
        moves.append(&mut m4);
        proof {
            assert(moves@ =~= rook_moves(self@, idx, color));
        }
        moves
    }

    /// A bishop's and a rook's moves from the same square.
    pub fn generate_queen_moves(&self, idx: Position, color: Color) -> (r: Vec<Move>)
        requires
            self@.wf(),
            idx.spec_valid(),
        ensures
            r@ == queen_moves(self@, idx, color),
    {
        let mut moves = self.generate_bishop_moves(idx, color);
        let mut rooks = self.generate_rook_moves(idx, color);
        moves.append(&mut rooks);
        moves
    }

    /// The movement-pattern-legal moves of the piece on `idx`, dispatched
    /// on its kind. Callers only ask about occupied squares; requesting
    /// moves for an empty square is a programmer error and is excluded.
    pub fn generate_moves_for(&self, idx: Position) -> (r: Vec<Move>)
        requires
            self@.wf(),
            idx.spec_valid(),
            self@.at(idx.x as int, idx.y as int) is Filled,
        ensures
            r@ == moves_for(self@, idx),
    {
        let piece = self.piece_at(idx);
        match piece {
            Piece::Empty => vstd::pervasive::unreached(),
            Piece::Filled { color, kind } => match kind {
                Kind::Pawn => self.generate_pawn_moves(idx, color),
                Kind::Knight => self.generate_knight_moves(idx, color),
                Kind::Bishop => self.generate_bishop_moves(idx, color),
                Kind::Rook => self.generate_rook_moves(idx, color),
                Kind::Queen => self.generate_queen_moves(idx, color),
                Kind::King => self.generate_king_moves(idx, color),
            },
        }
    }

    /// All moves of the side to move: ascending linear square index, each
    /// square's moves in generation order.
    pub fn generate_all_moves(&self) -> (r: Vec<Move>)
        requires
            self@.wf(),
        ensures
            r@ == all_moves(self@),
    {
        let mut moves: Vec<Move> = Vec::new();
        let mut i: i32 = 0;
        while i < 64
            invariant
                self@.wf(),
                0 <= i <= 64,
                moves@ + all_moves_from(self@, i as int) == all_moves(self@),
            decreases 64 - i,
        {
            if self.is_turn_for((i / 8) as i8, (i % 8) as i8) {
                let mut ms = self.generate_moves_for(Position::from_linear_index(i));
                moves.append(&mut ms);
            }
            proof {
                assert(moves@ + all_moves_from(self@, i + 1) =~= all_moves(self@));
            }
            i = i + 1;
        }
        moves
    }
}

} // verus!
