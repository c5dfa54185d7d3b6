use vstd::prelude::*;
use vstd::string::StringExecFns;

use crate::board::Board;
use crate::piece::Piece;
use crate::pos::{pos_text, Position};

verus! {

/// The display text of a move: its two squares joined by an arrow.
pub open spec fn move_text(m: Move) -> Seq<char> {
    pos_text(m.start) + seq![' ', '-', '>', ' '] + pos_text(m.end)
}

/// One ply: an immutable start/end pair. The value embeds no legality;
/// legality comes from how the move was generated.
#[derive(Clone, Copy, Debug, PartialEq, Eq, Structural)]
pub struct Move {
    pub start: Position,
    pub end: Position,
}

impl Move {
    pub fn new(start: Position, end: Position) -> (r: Move)
        ensures
            r == (Move { start, end }),
    {
        Move { start, end }
    }

    /// The move as text, `start -> end`.
    pub fn to_string(&self) -> (r: String)
        requires
            self.start.spec_valid(),
            self.end.spec_valid(),
        ensures
            r@ == move_text(*self),
    {
        let mut s = self.start.text();
        s.append(" -> ");
        let end = self.end.text();
        s.append(end.as_str());
        proof {
            reveal_strlit(" -> ");
            assert(s@ =~= move_text(*self));
        }
        s
    }

    pub fn get_start(&self) -> (r: Position)
        ensures
            r == self.start,
    {
        self.start
    }

    pub fn get_end(&self) -> (r: Position)
        ensures
            r == self.end,
    {
        self.end
    }

    /// Applies the move: the piece at `start` is copied onto `end`
    /// (overwriting any occupant, which is how captures happen), `start`
    /// becomes empty, and the turn passes to the other player.
    pub fn execute(&self, board: &mut Board)
        requires
            old(board)@.wf(),
            self.start.spec_valid(),
            self.end.spec_valid(),
        ensures
            final(board)@ == old(board)@.spec_apply(*self),
    {
        let p = board.pieces[self.start.y as usize * 8 + self.start.x as usize];
        board.pieces[self.end.y as usize * 8 + self.end.x as usize] = p;
        board.pieces[self.start.y as usize * 8 + self.start.x as usize] = Piece::Empty;
        board.turn = board.turn.next();
    }

    /// Same as `execute`.
    pub fn do_move(&self, board: &mut Board)
        requires
            old(board)@.wf(),
            self.start.spec_valid(),
            self.end.spec_valid(),
        ensures
            final(board)@ == old(board)@.spec_apply(*self),
    {
        self.execute(board);
    }
}

} // verus!
