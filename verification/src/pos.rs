use vstd::prelude::*;
use vstd::string::StringExecFns;

verus! {

/// A square on (or off) the board: file `x` and rank `y`.
///
/// Construction performs no validation; `is_valid` is the range check the
/// rest of the engine relies on before indexing.
#[derive(Clone, Copy, Debug, PartialEq, Eq, Structural)]
pub struct Position {
    pub x: i8,
    pub y: i8,
}

/// The board holds the squares with both coordinates in `[0, 8)`.
pub open spec fn on_board(x: int, y: int) -> bool {
    0 <= x < 8 && 0 <= y < 8
}

/// The display letter of file `x`.
pub open spec fn file_char(x: int) -> char {
    if x == 0 {
        'A'
    } else if x == 1 {
        'B'
    } else if x == 2 {
        'C'
    } else if x == 3 {
        'D'
    } else if x == 4 {
        'E'
    } else if x == 5 {
        'F'
    } else if x == 6 {
        'G'
    } else {
        'H'
    }
}

/// The display digit of rank `y`, 1-based.
pub open spec fn rank_char(y: int) -> char {
    if y == 0 {
        '1'
    } else if y == 1 {
        '2'
    } else if y == 2 {
        '3'
    } else if y == 3 {
        '4'
    } else if y == 4 {
        '5'
    } else if y == 5 {
        '6'
    } else if y == 6 {
        '7'
    } else {
        '8'
    }
}

/// The display text of a square: file letter then 1-based rank digit.
pub open spec fn pos_text(p: Position) -> Seq<char> {
    seq![file_char(p.x as int), rank_char(p.y as int)]
}

/// The file letter as a borrowed one-character string.
pub fn file_str(x: i8) -> (r: &'static str)
    requires
        0 <= x < 8,
    ensures
        r@ == seq![file_char(x as int)],
{
    match x {
        0 => {
            proof {
                reveal_strlit("A");
                assert("A"@ =~= seq![file_char(0)]);
            }
            "A"
        },
        1 => {
            proof {
                reveal_strlit("B");
                assert("B"@ =~= seq![file_char(1)]);
            }
            "B"
        },
        2 => {
            proof {
                reveal_strlit("C");
                assert("C"@ =~= seq![file_char(2)]);
            }
            "C"
        },
        3 => {
            proof {
                reveal_strlit("D");
                assert("D"@ =~= seq![file_char(3)]);
            }
            "D"
        },
        4 => {
            proof {
                reveal_strlit("E");
                assert("E"@ =~= seq![file_char(4)]);
            }
            "E"
        },
        5 => {
            proof {
                reveal_strlit("F");
                assert("F"@ =~= seq![file_char(5)]);
            }
            "F"
        },
        6 => {
            proof {
                reveal_strlit("G");
                assert("G"@ =~= seq![file_char(6)]);
            }
            "G"
        },
        _ => {
            proof {
                reveal_strlit("H");
                assert("H"@ =~= seq![file_char(x as int)]);
            }
            "H"
        },
    }
}

/// The rank digit as a borrowed one-character string.
pub fn rank_str(y: i8) -> (r: &'static str)
    requires
        0 <= y < 8,
    ensures
        r@ == seq![rank_char(y as int)],
{
    match y {
        0 => {
            proof {
                reveal_strlit("1");
                assert("1"@ =~= seq![rank_char(0)]);
            }
            "1"
        },
        1 => {
            proof {
                reveal_strlit("2");
                assert("2"@ =~= seq![rank_char(1)]);
            }
            "2"
        },
        2 => {
            proof {
                reveal_strlit("3");
                assert("3"@ =~= seq![rank_char(2)]);
            }
            "3"
        },
        3 => {
            proof {
                reveal_strlit("4");
                assert("4"@ =~= seq![rank_char(3)]);
            }
            "4"
        },
        4 => {
            proof {
                reveal_strlit("5");
                assert("5"@ =~= seq![rank_char(4)]);
            }
            "5"
        },
        5 => {
            proof {
                reveal_strlit("6");
                assert("6"@ =~= seq![rank_char(5)]);
            }
            "6"
        },
        6 => {
            proof {
                reveal_strlit("7");
                assert("7"@ =~= seq![rank_char(6)]);
            }
            "7"
        },
        _ => {
            proof {
                reveal_strlit("8");
                assert("8"@ =~= seq![rank_char(y as int)]);
            }
            "8"
        },
    }
}

impl Position {
    /// True iff the square lies on the board.
    pub open spec fn spec_valid(self) -> bool {
        on_board(self.x as int, self.y as int)
    }

    /// The linear index of the square in the row-major piece array.
    pub open spec fn linear(self) -> int {
        self.y * 8 + self.x
    }

    /// The display text of the square: one letter `A`..`H` for the file
    /// and one digit for the 1-based rank.
    pub fn text(&self) -> (r: String)
        requires
            self.spec_valid(),
        ensures
            r@ == pos_text(*self),
    {
        let mut s = String::from_str(file_str(self.x));
        s.append(rank_str(self.y));
        proof {
            assert(s@ =~= pos_text(*self));
        }
        s
    }

    pub fn new(x: i8, y: i8) -> (r: Position)
        ensures
            r == (Position { x, y }),
    {
        Position { x, y }
    }

    pub fn is_valid(&self) -> (r: bool)
        ensures
            r == self.spec_valid(),
    {
        self.x < 8 && self.y < 8 && self.x >= 0 && self.y >= 0
    }

    /// The square at linear index `i`: file `i % 8`, rank `i / 8`.
    pub fn from_linear_index(i: i32) -> (r: Position)
        requires
            0 <= i < 64,
        ensures
            r.x == i % 8,
            r.y == i / 8,
            r.spec_valid(),
            r.linear() == i,
    {
        Position { x: (i % 8) as i8, y: (i / 8) as i8 }
    }
}

} // verus!
