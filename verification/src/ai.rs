use vstd::prelude::*;

use crate::board::{all_moves, lemma_all_moves_len, lemma_no_own_capture, Board, BoardView, Player};
use crate::moves::Move;
use crate::piece::{spec_score, Color, Piece};
use crate::pos::Position;

verus! {

/// Fixed depth of the game-tree search.
pub const DEPTH: usize = 4;

/// Scores are whole tenths of a pawn: a piece of material value `s` counts
/// `10 * s`, one available move counts 1. `SCORE_INF` plays the role of
/// infinity: it exceeds every reachable evaluation.
pub const SCORE_INF: i64 = 1_000_000;

/// A bound on every evaluation: 64 squares of material at most 200 each
/// (in tenths: 128000) plus at most 4096 moves of mobility.
pub const EVAL_BOUND: i64 = 200_000;

/// The signed material of the first `n` squares, from the perspective of
/// `c`: each occupied square adds its score if the occupant is `c`-colored
/// and subtracts it otherwise; empty squares contribute nothing.
pub open spec fn material_upto(c: Color, ps: Seq<Piece>, n: int) -> int
    decreases n,
{
    if n <= 0 {
        0
    } else {
        material_upto(c, ps, n - 1) + (if ps[n - 1].spec_has_color(c) {
            spec_score(ps[n - 1])
        } else {
            -spec_score(ps[n - 1])
        })
    }
}

/// The evaluation of a position from the perspective of `c`, in tenths:
/// material balance plus a mobility bonus of one tenth per move available
/// to the side to move in the position (whoever that is).
pub open spec fn eval_spec(c: Color, v: BoardView) -> int {
    10 * material_upto(c, v.pieces, 64) + all_moves(v).len()
}

/// The value of the search at a node: depth 0 evaluates the position, any
/// other depth runs the move loop from the first generated move.
pub open spec fn negamax_spec(
    c: Color,
    v: BoardView,
    depth: nat,
    alpha: int,
    beta: int,
    max_player: bool,
) -> int
    decreases depth, all_moves(v).len() + 1,
{
    if depth == 0 {
        eval_spec(c, v)
    } else {
        search_from(
            c,
            v,
            all_moves(v),
            0,
            depth,
            alpha,
            beta,
            max_player,
            if max_player {
                -SCORE_INF as int
            } else {
                SCORE_INF as int
            },
        )
    }
}

/// The move loop of the search, from move `i` on with running value `val`:
/// each child is searched with the window negated and swapped and the flag
/// flipped; the maximizing side keeps the running maximum and stops at
/// `val >= beta`, the minimizing side keeps the minimum and stops at
/// `val <= alpha`; the bounds tighten after each child.
pub open spec fn search_from(
    c: Color,
    v: BoardView,
    moves: Seq<Move>,
    i: int,
    depth: nat,
    alpha: int,
    beta: int,
    max_player: bool,
    val: int,
) -> int
    decreases depth, moves.len() - i,
{
    if i < 0 || i >= moves.len() || depth == 0 {
        val
    } else {
        let child = negamax_spec(
            c,
            v.spec_apply(moves[i]),
            (depth - 1) as nat,
            -beta,
            -alpha,
            !max_player,
        );
        if max_player {
            let val2 = if child > val {
                child
            } else {
                val
            };
            if val2 >= beta {
                val2
            } else {
                let alpha2 = if val2 > alpha {
                    val2
                } else {
                    alpha
                };
                search_from(c, v, moves, i + 1, depth, alpha2, beta, max_player, val2)
            }
        } else {
            let val2 = if child < val {
                child
            } else {
                val
            };
            if val2 <= alpha {
                val2
            } else {
                let beta2 = if val2 < beta {
                    val2
                } else {
                    beta
                };
                search_from(c, v, moves, i + 1, depth, alpha, beta2, max_player, val2)
            }
        }
    }
}

/// The full-depth score of the position after one move, as `eval_board`
/// computes it.
pub open spec fn root_score(c: Color, v: BoardView, m: Move) -> int {
    negamax_spec(
        c,
        v.spec_apply(m),
        DEPTH as nat,
        -SCORE_INF as int,
        SCORE_INF as int,
        true,
    )
}

/// The choice loop of `best_move`, from move `i` on: a move replaces the
/// running best only on a strictly greater score, so among equal scores the
/// earliest-generated move stays.
pub open spec fn best_from(
    c: Color,
    v: BoardView,
    moves: Seq<Move>,
    i: int,
    best: Option<Move>,
    best_score: int,
) -> Option<Move>
    decreases moves.len() - i,
{
    if i < 0 || i >= moves.len() {
        best
    } else {
        let score = root_score(c, v, moves[i]);
        if score > best_score {
            best_from(c, v, moves, i + 1, Some(moves[i]), score)
        } else {
            best_from(c, v, moves, i + 1, best, best_score)
        }
    }
}

/// The move `best_move` chooses: a function of the board and the AI's color
/// alone.
pub open spec fn best_move_spec(c: Color, v: BoardView) -> Option<Move> {
    best_from(c, v, all_moves(v), 0, None, -SCORE_INF as int)
}

/// Swapping the perspective negates the material term square by square.
pub proof fn lemma_material_antisymmetric(c: Color, ps: Seq<Piece>, n: int)
    ensures
        material_upto(c, ps, n) == -material_upto(c.spec_opposite(), ps, n),
    decreases n,
{
    if n > 0 {
        lemma_material_antisymmetric(c, ps, n - 1);
        crate::board::lemma_opposite_ne(c);
        match ps[n - 1] {
            Piece::Empty => {},
            Piece::Filled { color, kind } => {
                match c {
                    Color::White => {},
                    Color::Black => {},
                }
            },
        }
    }
}

/// The evaluation is antisymmetric in perspective up to mobility: swapping
/// the AI's color negates the material component, while the mobility
/// component belongs to the side to move in the position and is unchanged —
/// so the two perspectives sum to twice the mobility term.
pub proof fn lemma_eval_antisymmetric(c: Color, v: BoardView)
    ensures
        eval_spec(c, v) + eval_spec(c.spec_opposite(), v) == 2 * all_moves(v).len(),
{
    lemma_material_antisymmetric(c, v.pieces, 64);
}

/// At depth 0 the search returns exactly the evaluation, whatever the
/// maximizing flag and the bounds.
pub proof fn lemma_negamax_depth_zero(
    c: Color,
    v: BoardView,
    alpha: int,
    beta: int,
    max_player: bool,
)
    ensures
        negamax_spec(c, v, 0, alpha, beta, max_player) == eval_spec(c, v),
{
}

/// Whatever the choice loop returns, it was one of the moves it looked at
/// (or the running best it started from).
proof fn lemma_best_from_in_moves(
    c: Color,
    v: BoardView,
    moves: Seq<Move>,
    i: int,
    best: Option<Move>,
    best_score: int,
)
    requires
        forall|m: Move| best == Some(m) ==> moves.contains(m),
    ensures
        forall|m: Move| best_from(c, v, moves, i, best, best_score) == Some(m) ==> moves.contains(m),
    decreases moves.len() - i,
{
    if 0 <= i < moves.len() {
        let score = root_score(c, v, moves[i]);
        assert(moves.contains(moves[i]));
        if score > best_score {
            lemma_best_from_in_moves(c, v, moves, i + 1, Some(moves[i]), score);
        } else {
            lemma_best_from_in_moves(c, v, moves, i + 1, best, best_score);
        }
    }
}

/// The chosen move, when there is one, is one of the generated moves. With
/// the choice pinned to `best_move_spec` — a function of the board alone —
/// the choice is deterministic: equal boards give equal moves.
pub proof fn lemma_best_move_in_moves(c: Color, v: BoardView)
    ensures
        forall|m: Move| best_move_spec(c, v) == Some(m) ==> all_moves(v).contains(m),
{
    lemma_best_from_in_moves(c, v, all_moves(v), 0, None, -SCORE_INF as int);
}

/// The AI: a target player and the piece color it evaluates for.
pub struct Ai {
    pub player: Player,
    pub color: Color,
}

impl Ai {
    /// An AI playing for `player`.
    pub fn new(player: Player) -> (r: Ai)
        ensures
            r.player == player,
            r.color == player.spec_color(),
    {
        let color = if let Player::White = player {
            Color::White
        } else {
            Color::Black
        };
        Ai { player, color }
    }

    /// Material balance from the AI's perspective plus one tenth per move
    /// available to the side to move, in tenths of a pawn.
    pub fn eval(&self, board: &Board) -> (r: i64)
        requires
            board@.wf(),
        ensures
            r == eval_spec(self.color, board@),
            -EVAL_BOUND <= r <= EVAL_BOUND,
    {
        let mut score: i64 = 0;
        let mut i: i32 = 0;
        while i < 64
            invariant
                board@.wf(),
                0 <= i <= 64,
                score == material_upto(self.color, board@.pieces, i as int),
                -200 * i <= score <= 200 * i,
            decreases 64 - i,
        {
            let pos = Position::from_linear_index(i);
            let piece = board.piece_at(pos);
            let s = piece.score() as i64;
            if piece.has_color(self.color) {
                score = score + s;
            } else {
                score = score - s;
            }
            i = i + 1;
        }
        let moves = board.generate_all_moves();
        proof {
            lemma_all_moves_len(board@);
        }
        let count = moves.len() as i64;
        10 * score + count
    }

    /// The negamax-style search: depth 0 (or a finished game, which never
    /// happens) evaluates the position; otherwise every generated move is
    /// tried on a copy of the board with the window negated and swapped,
    /// with a beta cutoff for the maximizing side and an alpha cutoff for
    /// the minimizing side. With no moves the sentinel value comes back
    /// unchanged.
    pub fn alpha_beta_negamax(
        &self,
        board: &Board,
        depth: usize,
        alpha: i64,
        beta: i64,
        max_player: bool,
    ) -> (r: i64)
        requires
            board@.wf(),
            -SCORE_INF <= alpha <= SCORE_INF,
            -SCORE_INF <= beta <= SCORE_INF,
        ensures
            r == negamax_spec(
                self.color,
                board@,
                depth as nat,
                alpha as int,
                beta as int,
                max_player,
            ),
            -SCORE_INF <= r <= SCORE_INF,
        decreases depth,
    {
        if depth == 0 || board.is_game_over() {
            let e = self.eval(board);
            return e;
        }
        let moves = board.generate_all_moves();
        let mut cur_alpha = alpha;
        let mut cur_beta = beta;
        let mut val: i64 = if max_player {
            -SCORE_INF
        } else {
            SCORE_INF
        };
        let mut i: usize = 0;
        while i < moves.len()
            invariant_except_break
                board@.wf(),
                depth >= 1,
                moves@ == all_moves(board@),
                0 <= i <= moves@.len(),
                -SCORE_INF <= cur_alpha <= SCORE_INF,
                -SCORE_INF <= cur_beta <= SCORE_INF,
                -SCORE_INF <= val <= SCORE_INF,
                search_from(
                    self.color,
                    board@,
                    moves@,
                    i as int,
                    depth as nat,
                    cur_alpha as int,
                    cur_beta as int,
                    max_player,
                    val as int,
                ) == negamax_spec(
                    self.color,
                    board@,
                    depth as nat,
                    alpha as int,
                    beta as int,
                    max_player,
                ),
            ensures
                val == negamax_spec(
                    self.color,
                    board@,
                    depth as nat,
                    alpha as int,
                    beta as int,
                    max_player,
                ),
                -SCORE_INF <= val <= SCORE_INF,
            decreases moves@.len() - i,
        {
            let m = moves[i];
            proof {
                lemma_no_own_capture(board@, i as int);
            }
            let mut board_ = board.duplicate();
            m.execute(&mut board_);
            let child = self.alpha_beta_negamax(&board_, depth - 1, -cur_beta, -cur_alpha, !max_player);
            if max_player {
                if child > val {
                    val = child;
                }
                if val >= cur_beta {
                    break ;
                }
                if val > cur_alpha {
                    cur_alpha = val;
                }
            } else {
                if child < val {
                    val = child;
                }
                if val <= cur_alpha {
                    break ;
                }
                if val < cur_beta {
                    cur_beta = val;
                }
            }
            i = i + 1;
        }
        val
    }

    /// The search entry point: full depth, the widest window, maximizing.
    pub fn eval_board(&self, board: &Board) -> (r: i64)
        requires
            board@.wf(),
        ensures
            r == negamax_spec(
                self.color,
                board@,
                DEPTH as nat,
                -SCORE_INF as int,
                SCORE_INF as int,
                true,
            ),
            -SCORE_INF <= r <= SCORE_INF,
    {
        self.alpha_beta_negamax(board, DEPTH, -SCORE_INF, SCORE_INF, true)
    }

    /// The move whose full-depth score is strictly greater than every
    /// earlier move's, or `None` when no move beats the sentinel (in
    /// particular when there are no moves). Ties keep the earliest move, so
    /// the choice is deterministic.
    pub fn best_move(&self, board: &Board) -> (r: Option<Move>)
        requires
            board@.wf(),
        ensures
            r == best_move_spec(self.color, board@),
    {
        let moves = board.generate_all_moves();
        let mut best: Option<Move> = None;
        let mut best_score: i64 = -SCORE_INF;
        let mut i: usize = 0;
        while i < moves.len()
            invariant
                board@.wf(),
                moves@ == all_moves(board@),
                0 <= i <= moves@.len(),
                -SCORE_INF <= best_score <= SCORE_INF,
                best_from(
                    self.color,
                    board@,
                    moves@,
                    i as int,
                    best,
                    best_score as int,
                ) == best_move_spec(self.color, board@),
            decreases moves@.len() - i,
        {
            let m = moves[i];
            proof {
                lemma_no_own_capture(board@, i as int);
            }
            let mut board_ = board.duplicate();
            m.execute(&mut board_);
            let score = self.eval_board(&board_);
            if score > best_score {
                best = Some(m);
                best_score = score;
            }
            i = i + 1;
        }
        best
    }

    /// `best_move` when it chooses; otherwise one of the generated moves,
    /// picked uniformly at random. A position with no moves at all is an
    /// invariant violation on the random path and is excluded.
    pub fn best_move_or_random(&self, board: &Board) -> (r: Move)
        requires
            board@.wf(),
            all_moves(board@).len() > 0,
        ensures
            best_move_spec(self.color, board@) is Some ==> Some(r) == best_move_spec(
                self.color,
                board@,
            ),
            best_move_spec(self.color, board@) is None ==> all_moves(board@).contains(r),
    {
        let best_move = self.best_move(board);
        match best_move {
            Some(m) => m,
            None => {
                let moves = board.generate_all_moves();
                let k = random_below(moves.len());
                let m = moves[k];
                proof {
                    assert(all_moves(board@)[k as int] == m);
                }
                m
            },
        }
    }
}

/// Relies on rand::thread_rng and rand::Rng::gen_range: a uniformly
/// distributed integer in `[0, n)`; the range is non-empty, so the call
/// does not panic.
#[verifier::external_body]
fn random_below(n: usize) -> (r: usize)
    requires
        n > 0,
    ensures
        r < n,
{
    rand::Rng::gen_range(&mut rand::thread_rng(), 0..n)
}

} // verus!
