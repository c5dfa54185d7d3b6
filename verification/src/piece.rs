use vstd::prelude::*;
use vstd::string::StringExecFns;

verus! {

/// One of the two sides.
#[derive(Clone, Copy, Debug, PartialEq, Eq, Structural)]
pub enum Color {
    White,
    Black,
}

/// A piece kind; a square holding a piece has exactly one.
#[derive(Clone, Copy, Debug, PartialEq, Eq, Structural)]
pub enum Kind {
    Pawn,
    Knight,
    Bishop,
    Rook,
    Queen,
    King,
}

/// The occupant of one square: empty, or a piece of one color and one kind.
///
/// The tagged representation makes the square invariant (exactly one color
/// and one kind when occupied) hold by construction. The classic one-byte
/// encoding of the same values is kept for the host boundary through
/// `bits` and `from_bits`.
#[derive(Clone, Copy, Debug, PartialEq, Eq, Structural)]
pub enum Piece {
    Empty,
    Filled { color: Color, kind: Kind },
}

impl Color {
    /// The other color.
    pub open spec fn spec_opposite(self) -> Color {
        match self {
            Color::White => Color::Black,
            Color::Black => Color::White,
        }
    }

    /// The color-flip: White and Black swap.
    pub fn opposite(&self) -> (r: Color)
        ensures
            r == self.spec_opposite(),
    {
        match self {
            Color::White => Color::Black,
            Color::Black => Color::White,
        }
    }
}

/// Material value of a piece kind; an empty square scores 0.
pub open spec fn spec_score(p: Piece) -> int {
    match p {
        Piece::Empty => 0,
        Piece::Filled { kind: Kind::Pawn, .. } => 1,
        Piece::Filled { kind: Kind::Knight, .. } => 3,
        Piece::Filled { kind: Kind::Bishop, .. } => 3,
        Piece::Filled { kind: Kind::Rook, .. } => 5,
        Piece::Filled { kind: Kind::Queen, .. } => 9,
        Piece::Filled { kind: Kind::King, .. } => 200,
    }
}

impl Piece {
    /// The color of the occupant, if any.
    pub open spec fn spec_color(self) -> Option<Color> {
        match self {
            Piece::Empty => None,
            Piece::Filled { color, .. } => Some(color),
        }
    }

    /// The kind of the occupant, if any.
    pub open spec fn spec_kind(self) -> Option<Kind> {
        match self {
            Piece::Empty => None,
            Piece::Filled { kind, .. } => Some(kind),
        }
    }

    /// True iff the square holds a piece of exactly the color `c`.
    pub open spec fn spec_has_color(self, c: Color) -> bool {
        self.spec_color() == Some(c)
    }

    pub fn is_empty(&self) -> (r: bool)
        ensures
            r == (*self == Piece::Empty),
    {
        match self {
            Piece::Empty => true,
            Piece::Filled { .. } => false,
        }
    }

    pub fn color(&self) -> (r: Option<Color>)
        ensures
            r == self.spec_color(),
    {
        match self {
            Piece::Empty => None,
            Piece::Filled { color, .. } => Some(*color),
        }
    }

    pub fn kind(&self) -> (r: Option<Kind>)
        ensures
            r == self.spec_kind(),
    {
        match self {
            Piece::Empty => None,
            Piece::Filled { kind, .. } => Some(*kind),
        }
    }

    /// The color an enemy of this piece would have, if the square is occupied.
    pub fn opposite_color(&self) -> (r: Option<Color>)
        ensures
            r == match self.spec_color() {
                None => None::<Color>,
                Some(c) => Some(c.spec_opposite()),
            },
    {
        match self {
            Piece::Empty => None,
            Piece::Filled { color, .. } => Some(color.opposite()),
        }
    }

    /// The same piece with its color flipped; an empty square stays empty.
    pub fn opposite(&self) -> (r: Piece)
        ensures
            r == match *self {
                Piece::Empty => Piece::Empty,
                Piece::Filled { color, kind } => Piece::Filled {
                    color: color.spec_opposite(),
                    kind,
                },
            },
    {
        match self {
            Piece::Empty => Piece::Empty,
            Piece::Filled { color, kind } => Piece::Filled {
                color: color.opposite(),
                kind: *kind,
            },
        }
    }

    /// True iff the square holds a piece of exactly the color `c`.
    pub fn has_color(&self, c: Color) -> (r: bool)
        ensures
            r == self.spec_has_color(c),
    {
        match self {
            Piece::Empty => false,
            Piece::Filled { color, .. } => *color == c,
        }
    }

    /// Fixed material value: pawn 1, knight 3, bishop 3, rook 5, queen 9,
    /// king 200, empty square 0.
    pub fn score(&self) -> (r: i32)
        ensures
            r == spec_score(*self),
    {
        match self {
            Piece::Empty => 0,
            Piece::Filled { kind: Kind::Pawn, .. } => 1,
            Piece::Filled { kind: Kind::Knight, .. } => 3,
            Piece::Filled { kind: Kind::Bishop, .. } => 3,
            Piece::Filled { kind: Kind::Rook, .. } => 5,
            Piece::Filled { kind: Kind::Queen, .. } => 9,
            Piece::Filled { kind: Kind::King, .. } => 200,
        }
    }

    /// The one-byte encoding of the occupant: color bit (White 1, Black 2)
    /// plus kind bit (pawn 4, knight 8, bishop 16, rook 32, queen 64,
    /// king 128); an empty square encodes to 0.
    pub fn bits(&self) -> (r: u8)
        ensures
            r == spec_bits(*self),
    {
        let color_bit: u8 = match self {
            Piece::Empty => 0,
            Piece::Filled { color: Color::White, .. } => 1,
            Piece::Filled { color: Color::Black, .. } => 2,
        };
        let kind_bit: u8 = match self {
            Piece::Empty => 0,
            Piece::Filled { kind: Kind::Pawn, .. } => 4,
            Piece::Filled { kind: Kind::Knight, .. } => 8,
            Piece::Filled { kind: Kind::Bishop, .. } => 16,
            Piece::Filled { kind: Kind::Rook, .. } => 32,
            Piece::Filled { kind: Kind::Queen, .. } => 64,
            Piece::Filled { kind: Kind::King, .. } => 128,
        };
        color_bit + kind_bit
    }

    /// Decodes the one-byte encoding; `None` for a byte that is not the
    /// encoding of an empty square or of a one-color one-kind piece.
    pub fn from_bits(bits: u8) -> (r: Option<Piece>)
        ensures
            r == spec_from_bits(bits),
    {
        match bits {
            0 => Some(Piece::Empty),
            5 => Some(Piece::Filled { color: Color::White, kind: Kind::Pawn }),
            9 => Some(Piece::Filled { color: Color::White, kind: Kind::Knight }),
            17 => Some(Piece::Filled { color: Color::White, kind: Kind::Bishop }),
            33 => Some(Piece::Filled { color: Color::White, kind: Kind::Rook }),
            65 => Some(Piece::Filled { color: Color::White, kind: Kind::Queen }),
            129 => Some(Piece::Filled { color: Color::White, kind: Kind::King }),
            6 => Some(Piece::Filled { color: Color::Black, kind: Kind::Pawn }),
            10 => Some(Piece::Filled { color: Color::Black, kind: Kind::Knight }),
            18 => Some(Piece::Filled { color: Color::Black, kind: Kind::Bishop }),
            34 => Some(Piece::Filled { color: Color::Black, kind: Kind::Rook }),
            66 => Some(Piece::Filled { color: Color::Black, kind: Kind::Queen }),
            130 => Some(Piece::Filled { color: Color::Black, kind: Kind::King }),
            _ => None,
        }
    }
}

/// The one-byte encoding of a square's occupant.
pub open spec fn spec_bits(p: Piece) -> u8 {
    match p {
        Piece::Empty => 0,
        Piece::Filled { color, kind } => (match color {
            Color::White => 1int,
            Color::Black => 2int,
        } + match kind {
            Kind::Pawn => 4int,
            Kind::Knight => 8int,
            Kind::Bishop => 16int,
            Kind::Rook => 32int,
            Kind::Queen => 64int,
            Kind::King => 128int,
        }) as u8,
    }
}

/// The decoding of one byte: the inverse of `spec_bits` on its range,
/// `None` elsewhere.
pub open spec fn spec_from_bits(bits: u8) -> Option<Piece> {
    if bits == 0 {
        Some(Piece::Empty)
    } else if bits == 5 {
        Some(Piece::Filled { color: Color::White, kind: Kind::Pawn })
    } else if bits == 9 {
        Some(Piece::Filled { color: Color::White, kind: Kind::Knight })
    } else if bits == 17 {
        Some(Piece::Filled { color: Color::White, kind: Kind::Bishop })
    } else if bits == 33 {
        Some(Piece::Filled { color: Color::White, kind: Kind::Rook })
    } else if bits == 65 {
        Some(Piece::Filled { color: Color::White, kind: Kind::Queen })
    } else if bits == 129 {
        Some(Piece::Filled { color: Color::White, kind: Kind::King })
    } else if bits == 6 {
        Some(Piece::Filled { color: Color::Black, kind: Kind::Pawn })
    } else if bits == 10 {
        Some(Piece::Filled { color: Color::Black, kind: Kind::Knight })
    } else if bits == 18 {
        Some(Piece::Filled { color: Color::Black, kind: Kind::Bishop })
    } else if bits == 34 {
        Some(Piece::Filled { color: Color::Black, kind: Kind::Rook })
    } else if bits == 66 {
        Some(Piece::Filled { color: Color::Black, kind: Kind::Queen })
    } else if bits == 130 {
        Some(Piece::Filled { color: Color::Black, kind: Kind::King })
    } else {
        None
    }
}

/// The display character of a square: `.` when empty, `P N B R Q K` for
/// White, the same letters in lower case for Black.
pub open spec fn piece_text(p: Piece) -> Seq<char> {
    match p {
        Piece::Empty => seq!['.'],
        Piece::Filled { color: Color::White, kind: Kind::Pawn } => seq!['P'],
        Piece::Filled { color: Color::White, kind: Kind::Knight } => seq!['N'],
        Piece::Filled { color: Color::White, kind: Kind::Bishop } => seq!['B'],
        Piece::Filled { color: Color::White, kind: Kind::Rook } => seq!['R'],
        Piece::Filled { color: Color::White, kind: Kind::Queen } => seq!['Q'],
        Piece::Filled { color: Color::White, kind: Kind::King } => seq!['K'],
        Piece::Filled { color: Color::Black, kind: Kind::Pawn } => seq!['p'],
        Piece::Filled { color: Color::Black, kind: Kind::Knight } => seq!['n'],
        Piece::Filled { color: Color::Black, kind: Kind::Bishop } => seq!['b'],
        Piece::Filled { color: Color::Black, kind: Kind::Rook } => seq!['r'],
        Piece::Filled { color: Color::Black, kind: Kind::Queen } => seq!['q'],
        Piece::Filled { color: Color::Black, kind: Kind::King } => seq!['k'],
    }
}

/// The display character of a square, as a borrowed one-character string.
pub fn piece_str(p: &Piece) -> (r: &'static str)
    ensures
        r@ == piece_text(*p),
{
    match p {
        Piece::Empty => {
            proof {
                reveal_strlit(".");
                assert("."@ =~= piece_text(*p));
            }
            "."
        },
        Piece::Filled { color: Color::White, kind: Kind::Pawn } => {
            proof {
                reveal_strlit("P");
                assert("P"@ =~= piece_text(*p));
            }
            "P"
        },
        Piece::Filled { color: Color::White, kind: Kind::Knight } => {
            proof {
                reveal_strlit("N");
                assert("N"@ =~= piece_text(*p));
            }
            "N"
        },
        Piece::Filled { color: Color::White, kind: Kind::Bishop } => {
            proof {
                reveal_strlit("B");
                assert("B"@ =~= piece_text(*p));
            }
            "B"
        },
        Piece::Filled { color: Color::White, kind: Kind::Rook } => {
            proof {
                reveal_strlit("R");
                assert("R"@ =~= piece_text(*p));
            }
            "R"
        },
        Piece::Filled { color: Color::White, kind: Kind::Queen } => {
            proof {
                reveal_strlit("Q");
                assert("Q"@ =~= piece_text(*p));
            }
            "Q"
        },
        Piece::Filled { color: Color::White, kind: Kind::King } => {
            proof {
                reveal_strlit("K");
                assert("K"@ =~= piece_text(*p));
            }
            "K"
        },
        Piece::Filled { color: Color::Black, kind: Kind::Pawn } => {
            proof {
                reveal_strlit("p");
                assert("p"@ =~= piece_text(*p));
            }
            "p"
        },
        Piece::Filled { color: Color::Black, kind: Kind::Knight } => {
            proof {
                reveal_strlit("n");
                assert("n"@ =~= piece_text(*p));
            }
            "n"
        },
        Piece::Filled { color: Color::Black, kind: Kind::Bishop } => {
            proof {
                reveal_strlit("b");
                assert("b"@ =~= piece_text(*p));
            }
            "b"
        },
        Piece::Filled { color: Color::Black, kind: Kind::Rook } => {
            proof {
                reveal_strlit("r");
                assert("r"@ =~= piece_text(*p));
            }
            "r"
        },
        Piece::Filled { color: Color::Black, kind: Kind::Queen } => {
            proof {
                reveal_strlit("q");
                assert("q"@ =~= piece_text(*p));
            }
            "q"
        },
        Piece::Filled { color: Color::Black, kind: Kind::King } => {
            proof {
                reveal_strlit("k");
                assert("k"@ =~= piece_text(*p));
            }
            "k"
        },
    }
}

impl Piece {
    /// The display character of the square as an owned one-character string.
    pub fn text(&self) -> (r: String)
        ensures
            r@ == piece_text(*self),
    {
        String::from_str(piece_str(self))
    }
}

/// Decoding inverts encoding: every square value round-trips through its
/// one-byte form.
pub proof fn lemma_bits_round_trip(p: Piece)
    ensures
        spec_from_bits(spec_bits(p)) == Some(p),
{
}

} // verus!
