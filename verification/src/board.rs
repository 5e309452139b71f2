//! The narrow view of a chess position that fingerprinting consumes: which
//! squares each kind of piece occupies, who may still castle where, the
//! en-passant target file and the side to move.
//!
//! Squares are numbered 0 to 63, rank by rank from White's side: a1 is 0,
//! b1 is 1, h1 is 7, a2 is 8 and h8 is 63. A set of squares is a `u64` in
//! which bit `i` stands for square `i`.

use vstd::prelude::*;
use vstd::std_specs::bits::axiom_u64_trailing_zeros;

verus! {

#[derive(Debug, Clone, Copy, PartialEq, Eq, Structural)]
pub enum Color {
    White,
    Black,
}

#[derive(Debug, Clone, Copy, PartialEq, Eq, Structural)]
pub enum PieceKind {
    Pawn,
    Knight,
    Bishop,
    Rook,
    Queen,
    King,
}

#[derive(Debug, Clone, Copy, PartialEq, Eq, Structural)]
pub enum CastleSide {
    Short,
    Long,
}

/// A file of the board, a to h.
#[derive(Debug, Clone, Copy, PartialEq, Eq, Structural)]
pub enum File {
    A,
    B,
    C,
    D,
    E,
    F,
    G,
    H,
}

/// A piece kind together with its colour. The variants are listed in the
/// order in which the key table groups its piece keys; [`ColoredPiece::index`]
/// states that order explicitly and is what all indexing goes by.
#[derive(Debug, Clone, Copy, PartialEq, Eq, Structural)]
pub enum ColoredPiece {
    BlackPawn,
    WhitePawn,
    BlackKnight,
    WhiteKnight,
    BlackBishop,
    WhiteBishop,
    BlackRook,
    WhiteRook,
    BlackQueen,
    WhiteQueen,
    BlackKing,
    WhiteKing,
}

/// Whether square `square` belongs to the set `squares`.
pub open spec fn contains_square(squares: u64, square: int) -> bool {
    0 <= square < 64 && (squares >> (square as u64)) & 1 == 1
}

/// The number of the square on file `file` and rank `rank`, both from 0.
pub open spec fn square_at(file: int, rank: int) -> int {
    8 * rank + file
}

/// Tests one square of a set.
pub fn has_square(squares: u64, square: u8) -> (r: bool)
    ensures
        r == contains_square(squares, square as int),
{
    square < 64 && (squares >> (square as u64)) & 1 == 1
}

/// The lowest square of a set that is not empty.
pub fn lowest_square(squares: u64) -> (square: u8)
    requires
        squares != 0,
    ensures
        square < 64,
        contains_square(squares, square as int),
        forall|s: int| 0 <= s < square ==> !contains_square(squares, s),
{
    proof {
        axiom_u64_trailing_zeros(squares);
    }
    let zeros = squares.trailing_zeros();
    assert forall|s: int| 0 <= s < zeros implies !contains_square(squares, s) by {
        let j = s as u64;
        assert((squares >> j) & 1u64 == 0u64);
    }
    zeros as u8
}

/// The set without the given square.
pub fn without_square(squares: u64, square: u8) -> (rest: u64)
    requires
        square < 64,
    ensures
        forall|s: int| contains_square(rest, s) == (contains_square(squares, s) && s != square),
{
    let rest = squares & !(1u64 << (square as u64));
    assert forall|s: int| contains_square(rest, s) == (contains_square(squares, s) && s
        != square) by {
        if 0 <= s < 64 {
            let j = s as u64;
            let q = square as u64;
            assert(((squares & !(1u64 << q)) >> j) & 1 == 1 <==> ((squares >> j) & 1 == 1 && j
                != q)) by (bit_vector)
                requires
                    j < 64,
                    q < 64,
            ;
        }
    }
    rest
}

impl PieceKind {
    /// The position of the kind in the order pawn, knight, bishop, rook,
    /// queen, king.
    pub open spec fn spec_ordinal(self) -> nat {
        match self {
            PieceKind::Pawn => 0,
            PieceKind::Knight => 1,
            PieceKind::Bishop => 2,
            PieceKind::Rook => 3,
            PieceKind::Queen => 4,
            PieceKind::King => 5,
        }
    }
}

impl File {
    /// 0 for file a up to 7 for file h.
    pub open spec fn spec_index(self) -> u8 {
        match self {
            File::A => 0,
            File::B => 1,
            File::C => 2,
            File::D => 3,
            File::E => 4,
            File::F => 5,
            File::G => 6,
            File::H => 7,
        }
    }

    #[verifier::when_used_as_spec(spec_index)]
    pub fn index(self) -> (i: u8)
        ensures
            i == self.spec_index(),
            i <= 7,
    {
        match self {
            File::A => 0,
            File::B => 1,
            File::C => 2,
            File::D => 3,
            File::E => 4,
            File::F => 5,
            File::G => 6,
            File::H => 7,
        }
    }

    /// The file with the given index, if the index is at most 7.
    pub open spec fn spec_from_index(index: u8) -> Option<File> {
        if index == 0 {
            Some(File::A)
        } else if index == 1 {
            Some(File::B)
        } else if index == 2 {
            Some(File::C)
        } else if index == 3 {
            Some(File::D)
        } else if index == 4 {
            Some(File::E)
        } else if index == 5 {
            Some(File::F)
        } else if index == 6 {
            Some(File::G)
        } else if index == 7 {
            Some(File::H)
        } else {
            None
        }
    }

    /// Finds the file with the given index; there is none above 7.
    #[verifier::when_used_as_spec(spec_from_index)]
    pub fn from_index(index: u8) -> (r: Option<File>)
        ensures
            r == Self::spec_from_index(index),
            r is Some <==> index <= 7,
            r matches Some(f) ==> f.spec_index() == index,
    {
        match index {
            0 => Some(File::A),
            1 => Some(File::B),
            2 => Some(File::C),
            3 => Some(File::D),
            4 => Some(File::E),
            5 => Some(File::F),
            6 => Some(File::G),
            7 => Some(File::H),
            _ => None,
        }
    }
}

impl ColoredPiece {
    /// The piece of the given colour and kind.
    pub open spec fn spec_new(color: Color, kind: PieceKind) -> ColoredPiece {
        match (color, kind) {
            (Color::White, PieceKind::Pawn) => ColoredPiece::WhitePawn,
            (Color::White, PieceKind::Knight) => ColoredPiece::WhiteKnight,
            (Color::White, PieceKind::Bishop) => ColoredPiece::WhiteBishop,
            (Color::White, PieceKind::Rook) => ColoredPiece::WhiteRook,
            (Color::White, PieceKind::Queen) => ColoredPiece::WhiteQueen,
            (Color::White, PieceKind::King) => ColoredPiece::WhiteKing,
            (Color::Black, PieceKind::Pawn) => ColoredPiece::BlackPawn,
            (Color::Black, PieceKind::Knight) => ColoredPiece::BlackKnight,
            (Color::Black, PieceKind::Bishop) => ColoredPiece::BlackBishop,
            (Color::Black, PieceKind::Rook) => ColoredPiece::BlackRook,
            (Color::Black, PieceKind::Queen) => ColoredPiece::BlackQueen,
            (Color::Black, PieceKind::King) => ColoredPiece::BlackKing,
        }
    }

    pub open spec fn color(self) -> Color {
        match self {
            ColoredPiece::WhitePawn
            | ColoredPiece::WhiteKnight
            | ColoredPiece::WhiteBishop
            | ColoredPiece::WhiteRook
            | ColoredPiece::WhiteQueen
            | ColoredPiece::WhiteKing => Color::White,
            _ => Color::Black,
        }
    }

    pub open spec fn kind(self) -> PieceKind {
        match self {
            ColoredPiece::BlackPawn | ColoredPiece::WhitePawn => PieceKind::Pawn,
            ColoredPiece::BlackKnight | ColoredPiece::WhiteKnight => PieceKind::Knight,
            ColoredPiece::BlackBishop | ColoredPiece::WhiteBishop => PieceKind::Bishop,
            ColoredPiece::BlackRook | ColoredPiece::WhiteRook => PieceKind::Rook,
            ColoredPiece::BlackQueen | ColoredPiece::WhiteQueen => PieceKind::Queen,
            ColoredPiece::BlackKing | ColoredPiece::WhiteKing => PieceKind::King,
        }
    }

    /// The number of the piece's group of 64 keys in the key table.
    pub open spec fn spec_index(self) -> usize {
        match self {
            ColoredPiece::BlackPawn => 0,
            ColoredPiece::WhitePawn => 1,
            ColoredPiece::BlackKnight => 2,
            ColoredPiece::WhiteKnight => 3,
            ColoredPiece::BlackBishop => 4,
            ColoredPiece::WhiteBishop => 5,
            ColoredPiece::BlackRook => 6,
            ColoredPiece::WhiteRook => 7,
            ColoredPiece::BlackQueen => 8,
            ColoredPiece::WhiteQueen => 9,
            ColoredPiece::BlackKing => 10,
            ColoredPiece::WhiteKing => 11,
        }
    }

    /// The piece whose group has number `index`; for an index outside 0 to
    /// 11 the value is of no interest.
    pub open spec fn spec_from_index(index: int) -> ColoredPiece {
        if index == 0 {
            ColoredPiece::BlackPawn
        } else if index == 1 {
            ColoredPiece::WhitePawn
        } else if index == 2 {
            ColoredPiece::BlackKnight
        } else if index == 3 {
            ColoredPiece::WhiteKnight
        } else if index == 4 {
            ColoredPiece::BlackBishop
        } else if index == 5 {
            ColoredPiece::WhiteBishop
        } else if index == 6 {
            ColoredPiece::BlackRook
        } else if index == 7 {
            ColoredPiece::WhiteRook
        } else if index == 8 {
            ColoredPiece::BlackQueen
        } else if index == 9 {
            ColoredPiece::WhiteQueen
        } else if index == 10 {
            ColoredPiece::BlackKing
        } else {
            ColoredPiece::WhiteKing
        }
    }

    #[verifier::when_used_as_spec(spec_new)]
    pub fn new(color: Color, kind: PieceKind) -> (p: ColoredPiece)
        ensures
            p == Self::spec_new(color, kind),
            p.color() == color,
            p.kind() == kind,
            p.spec_index() == 2 * kind.spec_ordinal() + if color == Color::White {
                1int
            } else {
                0int
            },
    {
        match (color, kind) {
            (Color::White, PieceKind::Pawn) => ColoredPiece::WhitePawn,
            (Color::White, PieceKind::Knight) => ColoredPiece::WhiteKnight,
            (Color::White, PieceKind::Bishop) => ColoredPiece::WhiteBishop,
            (Color::White, PieceKind::Rook) => ColoredPiece::WhiteRook,
            (Color::White, PieceKind::Queen) => ColoredPiece::WhiteQueen,
            (Color::White, PieceKind::King) => ColoredPiece::WhiteKing,
            (Color::Black, PieceKind::Pawn) => ColoredPiece::BlackPawn,
            (Color::Black, PieceKind::Knight) => ColoredPiece::BlackKnight,
            (Color::Black, PieceKind::Bishop) => ColoredPiece::BlackBishop,
            (Color::Black, PieceKind::Rook) => ColoredPiece::BlackRook,
            (Color::Black, PieceKind::Queen) => ColoredPiece::BlackQueen,
            (Color::Black, PieceKind::King) => ColoredPiece::BlackKing,
        }
    }

    #[verifier::when_used_as_spec(spec_index)]
    pub fn index(self) -> (i: usize)
        ensures
            i == self.spec_index(),
            i < 12,
            Self::spec_from_index(i as int) == self,
    {
        match self {
            ColoredPiece::BlackPawn => 0,
            ColoredPiece::WhitePawn => 1,
            ColoredPiece::BlackKnight => 2,
            ColoredPiece::WhiteKnight => 3,
            ColoredPiece::BlackBishop => 4,
            ColoredPiece::WhiteBishop => 5,
            ColoredPiece::BlackRook => 6,
            ColoredPiece::WhiteRook => 7,
            ColoredPiece::BlackQueen => 8,
            ColoredPiece::WhiteQueen => 9,
            ColoredPiece::BlackKing => 10,
            ColoredPiece::WhiteKing => 11,
        }
    }

    /// The piece whose group of keys has number `index`, if there is one.
    pub fn from_index(index: usize) -> (r: Option<ColoredPiece>)
        ensures
            r is Some <==> index < 12,
            r matches Some(p) ==> p == Self::spec_from_index(index as int) && p.spec_index()
                == index,
    {
        match index {
            0 => Some(ColoredPiece::BlackPawn),
            1 => Some(ColoredPiece::WhitePawn),
            2 => Some(ColoredPiece::BlackKnight),
            3 => Some(ColoredPiece::WhiteKnight),
            4 => Some(ColoredPiece::BlackBishop),
            5 => Some(ColoredPiece::WhiteBishop),
            6 => Some(ColoredPiece::BlackRook),
            7 => Some(ColoredPiece::WhiteRook),
            8 => Some(ColoredPiece::BlackQueen),
            9 => Some(ColoredPiece::WhiteQueen),
            10 => Some(ColoredPiece::BlackKing),
            11 => Some(ColoredPiece::WhiteKing),
            _ => None,
        }
    }
}

/// What one side contributes to a position.
#[derive(Debug, Clone, Copy, PartialEq, Eq, Structural)]
pub struct SideView {
    pub pawns: u64,
    pub knights: u64,
    pub bishops: u64,
    pub rooks: u64,
    pub queens: u64,
    pub kings: u64,
    pub castle_short: bool,
    pub castle_long: bool,
}

/// A position as fingerprinting sees it.
#[derive(Debug, Clone, Copy, PartialEq, Eq, Structural)]
pub struct BoardView {
    pub white: SideView,
    pub black: SideView,
    /// The file of the en-passant target square, where the last move was a
    /// double pawn step.
    pub en_passant: Option<File>,
    pub side_to_move: Color,
}

/// The position from which every game of standard chess starts.
pub open spec fn initial_position() -> BoardView {
    BoardView {
        white: SideView {
            pawns: 0x0000_0000_0000_FF00,
            knights: 0x0000_0000_0000_0042,
            bishops: 0x0000_0000_0000_0024,
            rooks: 0x0000_0000_0000_0081,
            queens: 0x0000_0000_0000_0008,
            kings: 0x0000_0000_0000_0010,
            castle_short: true,
            castle_long: true,
        },
        black: SideView {
            pawns: 0x00FF_0000_0000_0000,
            knights: 0x4200_0000_0000_0000,
            bishops: 0x2400_0000_0000_0000,
            rooks: 0x8100_0000_0000_0000,
            queens: 0x0800_0000_0000_0000,
            kings: 0x1000_0000_0000_0000,
            castle_short: true,
            castle_long: true,
        },
        en_passant: None,
        side_to_move: Color::White,
    }
}

impl SideView {
    pub open spec fn spec_occupied(self, kind: PieceKind) -> u64 {
        match kind {
            PieceKind::Pawn => self.pawns,
            PieceKind::Knight => self.knights,
            PieceKind::Bishop => self.bishops,
            PieceKind::Rook => self.rooks,
            PieceKind::Queen => self.queens,
            PieceKind::King => self.kings,
        }
    }

    pub open spec fn spec_castle_right(self, side: CastleSide) -> bool {
        match side {
            CastleSide::Short => self.castle_short,
            CastleSide::Long => self.castle_long,
        }
    }
}

impl BoardView {
    /// The standard initial position.
    pub fn initial() -> (view: BoardView)
        ensures
            view == initial_position(),
    {
        BoardView {
            white: SideView {
                pawns: 0x0000_0000_0000_FF00,
                knights: 0x0000_0000_0000_0042,
                bishops: 0x0000_0000_0000_0024,
                rooks: 0x0000_0000_0000_0081,
                queens: 0x0000_0000_0000_0008,
                kings: 0x0000_0000_0000_0010,
                castle_short: true,
                castle_long: true,
            },
            black: SideView {
                pawns: 0x00FF_0000_0000_0000,
                knights: 0x4200_0000_0000_0000,
                bishops: 0x2400_0000_0000_0000,
                rooks: 0x8100_0000_0000_0000,
                queens: 0x0800_0000_0000_0000,
                kings: 0x1000_0000_0000_0000,
                castle_short: true,
                castle_long: true,
            },
            en_passant: None,
            side_to_move: Color::White,
        }
    }

    pub open spec fn side(&self, color: Color) -> SideView {
        match color {
            Color::White => self.white,
            Color::Black => self.black,
        }
    }

    /// The squares that pieces of the given colour and kind stand on.
    pub open spec fn spec_occupied(&self, color: Color, kind: PieceKind) -> u64 {
        self.side(color).spec_occupied(kind)
    }

    pub open spec fn spec_occupied_by(&self, piece: ColoredPiece) -> u64 {
        self.spec_occupied(piece.color(), piece.kind())
    }

    /// Whether a piece of this colour and kind stands on the square.
    pub open spec fn has_piece(&self, piece: ColoredPiece, square: int) -> bool {
        contains_square(self.spec_occupied_by(piece), square)
    }

    pub open spec fn spec_castle_right(&self, color: Color, side: CastleSide) -> bool {
        self.side(color).spec_castle_right(side)
    }

    #[verifier::when_used_as_spec(spec_occupied)]
    pub fn occupied(&self, color: Color, kind: PieceKind) -> (squares: u64)
        ensures
            squares == self.spec_occupied(color, kind),
    {
        let side = match color {
            Color::White => &self.white,
            Color::Black => &self.black,
        };
        match kind {
            PieceKind::Pawn => side.pawns,
            PieceKind::Knight => side.knights,
            PieceKind::Bishop => side.bishops,
            PieceKind::Rook => side.rooks,
            PieceKind::Queen => side.queens,
            PieceKind::King => side.kings,
        }
    }

    #[verifier::when_used_as_spec(spec_occupied_by)]
    pub fn occupied_by(&self, piece: ColoredPiece) -> (squares: u64)
        ensures
            squares == self.spec_occupied_by(piece),
    {
        match piece {
            ColoredPiece::BlackPawn => self.black.pawns,
            ColoredPiece::WhitePawn => self.white.pawns,
            ColoredPiece::BlackKnight => self.black.knights,
            ColoredPiece::WhiteKnight => self.white.knights,
            ColoredPiece::BlackBishop => self.black.bishops,
            ColoredPiece::WhiteBishop => self.white.bishops,
            ColoredPiece::BlackRook => self.black.rooks,
            ColoredPiece::WhiteRook => self.white.rooks,
            ColoredPiece::BlackQueen => self.black.queens,
            ColoredPiece::WhiteQueen => self.white.queens,
            ColoredPiece::BlackKing => self.black.kings,
            ColoredPiece::WhiteKing => self.white.kings,
        }
    }

    #[verifier::when_used_as_spec(spec_castle_right)]
    pub fn castle_right(&self, color: Color, side: CastleSide) -> (held: bool)
        ensures
            held == self.spec_castle_right(color, side),
    {
        match (color, side) {
            (Color::White, CastleSide::Short) => self.white.castle_short,
            (Color::White, CastleSide::Long) => self.white.castle_long,
            (Color::Black, CastleSide::Short) => self.black.castle_short,
            (Color::Black, CastleSide::Long) => self.black.castle_long,
        }
    }
}

} // verus!
