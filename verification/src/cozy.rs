//! Bridges to the `cozy_chess` board library: a position held by a
//! `cozy_chess::Board` is read into a [`BoardView`], and a decoded book move
//! becomes a `cozy_chess::Move`.
//!
//! The verifier cannot look inside values of `cozy_chess`. What a board
//! holds is therefore given names here, one for each of the four things a
//! position is asked: its pieces, its castling rights, its en-passant file
//! and whose turn it is. The functions that make the calls into `cozy_chess`
//! are stated without proof, each a single call that hands back what its
//! name stands for. What this module builds from those answers is proved.

use crate::board::{BoardView, Color, File, SideView};
use crate::moves::{DecodedMove, Promotion};
use vstd::prelude::*;

verus! {

#[verifier::external_type_specification]
#[verifier::external_body]
pub struct ExBoard(cozy_chess::Board);

#[verifier::external_type_specification]
#[verifier::external_body]
pub struct ExMove(cozy_chess::Move);

/// The pieces on a board: for a colour and a piece kind, each given by its
/// index in `cozy_chess` (0 for White, 1 for Black; 0 for pawns, 1 for
/// knights, 2 for bishops, 3 for rooks, 4 for queens, 5 for kings), the set
/// of squares that `cozy_chess::Board::colored_pieces` gives, as the `u64`
/// behind it, in which bit `i` stands for square `i`.
pub uninterp spec fn board_pieces(board: cozy_chess::Board) -> Map<(int, int), u64>;

/// The castling rights on a board: for a colour, given by its index in
/// `cozy_chess`, whether `cozy_chess::Board::castle_rights` records a rook
/// file for castling short, and whether it records one for castling long.
pub uninterp spec fn board_castling(board: cozy_chess::Board) -> Map<int, (bool, bool)>;

/// The index of the file that `cozy_chess::Board::en_passant` gives, 0 for
/// file a up to 7 for file h, if it gives one.
pub uninterp spec fn board_en_passant_file(board: cozy_chess::Board) -> Option<u8>;

/// Whether `cozy_chess::Board::side_to_move` gives White.
pub uninterp spec fn board_white_turn(board: cozy_chess::Board) -> bool;

/// The `cozy_chess::Move` from the square on the file and rank of the first
/// two indices to the square on the file and rank of the next two, promoting
/// to the piece kind of the given index in `cozy_chess`, if one is given.
pub uninterp spec fn cozy_move_of(
    from_file: u8,
    from_rank: u8,
    to_file: u8,
    to_rank: u8,
    promotion: Option<u8>,
) -> cozy_chess::Move;

/// Calls `cozy_chess::Board::colored_pieces` and hands back the square set
/// as its backing `u64`. Colour and piece kind are turned into those of
/// `cozy_chess` by its `index` functions, which panic on an index out of
/// range; the preconditions rule that out. The result is what
/// [`board_pieces`] names; nothing more is claimed of it.
#[verifier::external_body]
fn board_squares(board: &cozy_chess::Board, color: usize, kind: usize) -> (squares: u64)
    requires
        color < 2,
        kind < 6,
    ensures
        squares == board_pieces(*board)[(color as int, kind as int)],
{
    board.colored_pieces(cozy_chess::Color::index(color), cozy_chess::Piece::index(kind)).0
}

/// Reads `cozy_chess::Board::castle_rights` and reports whether the colour
/// still has a rook file recorded for castling short. The result is the
/// first half of what [`board_castling`] names for the colour.
#[verifier::external_body]
fn board_castle_short(board: &cozy_chess::Board, color: usize) -> (held: bool)
    requires
        color < 2,
    ensures
        held == board_castling(*board)[color as int].0,
{
    board.castle_rights(cozy_chess::Color::index(color)).short.is_some()
}

/// As [`board_castle_short`], for castling long: the second half of what
/// [`board_castling`] names for the colour.
#[verifier::external_body]
fn board_castle_long(board: &cozy_chess::Board, color: usize) -> (held: bool)
    requires
        color < 2,
    ensures
        held == board_castling(*board)[color as int].1,
{
    board.castle_rights(cozy_chess::Color::index(color)).long.is_some()
}

/// Calls `cozy_chess::Board::en_passant` and hands back the index of the
/// file, which for a `cozy_chess::File` is 0 for file a up to 7 for file h.
/// The result is what [`board_en_passant_file`] names.
#[verifier::external_body]
fn board_en_passant(board: &cozy_chess::Board) -> (file: Option<u8>)
    ensures
        file == board_en_passant_file(*board),
        file matches Some(index) ==> index <= 7,
{
    match board.en_passant() {
        Some(file) => Some(file as u8),
        None => None,
    }
}

/// Calls `cozy_chess::Board::side_to_move` and tells whether it is White.
/// The result is what [`board_white_turn`] names.
#[verifier::external_body]
fn board_white_to_move(board: &cozy_chess::Board) -> (white: bool)
    ensures
        white == board_white_turn(*board),
{
    matches!(board.side_to_move(), cozy_chess::Color::White)
}

/// Builds a `cozy_chess::Move` from file and rank indices, through
/// `cozy_chess::Square::new`, and from the index of the promotion piece in
/// `cozy_chess::Piece`, if any. The `index` functions of `cozy_chess` panic
/// on an index out of range, which the preconditions rule out. The result is
/// what [`cozy_move_of`] names for the same five values.
#[verifier::external_body]
fn cozy_move(from_file: u8, from_rank: u8, to_file: u8, to_rank: u8, promotion: Option<u8>) -> (mv:
    cozy_chess::Move)
    requires
        from_file <= 7,
        from_rank <= 7,
        to_file <= 7,
        to_rank <= 7,
        promotion matches Some(piece) ==> piece <= 5,
    ensures
        mv == cozy_move_of(from_file, from_rank, to_file, to_rank, promotion),
{
    let from = cozy_chess::Square::new(
        cozy_chess::File::index(from_file as usize),
        cozy_chess::Rank::index(from_rank as usize),
    );
    let to = cozy_chess::Square::new(
        cozy_chess::File::index(to_file as usize),
        cozy_chess::Rank::index(to_rank as usize),
    );
    let promotion = match promotion {
        Some(piece) => Some(cozy_chess::Piece::index(piece as usize)),
        None => None,
    };
    cozy_chess::Move { from, to, promotion }
}

/// One side of a position, put together from the pieces and castling rights
/// of a board: the six square sets of the colour, by piece kind, and its two
/// rights.
pub open spec fn side_of(
    pieces: Map<(int, int), u64>,
    castling: Map<int, (bool, bool)>,
    color: int,
) -> SideView {
    SideView {
        pawns: pieces[(color, 0)],
        knights: pieces[(color, 1)],
        bishops: pieces[(color, 2)],
        rooks: pieces[(color, 3)],
        queens: pieces[(color, 4)],
        kings: pieces[(color, 5)],
        castle_short: castling[color].0,
        castle_long: castling[color].1,
    }
}

/// The view of a position, put together from the four things a board is
/// asked: White is colour 0 and Black colour 1, the en-passant file is the
/// one with the given index, and the side to move is White or Black.
pub open spec fn view_of(
    pieces: Map<(int, int), u64>,
    castling: Map<int, (bool, bool)>,
    en_passant: Option<u8>,
    white_to_move: bool,
) -> BoardView {
    BoardView {
        white: side_of(pieces, castling, 0),
        black: side_of(pieces, castling, 1),
        en_passant: match en_passant {
            Some(index) => File::spec_from_index(index),
            None => None,
        },
        side_to_move: if white_to_move {
            Color::White
        } else {
            Color::Black
        },
    }
}

/// The index in `cozy_chess` of the piece kind that a pawn promotes to, if
/// the move promotes: 1 for a knight, 2 for a bishop, 3 for a rook, 4 for a
/// queen.
pub open spec fn promotion_piece(promotion: Promotion) -> Option<u8> {
    match promotion {
        Promotion::NoPromotion => None,
        Promotion::Knight => Some(1u8),
        Promotion::Bishop => Some(2u8),
        Promotion::Rook => Some(3u8),
        Promotion::Queen => Some(4u8),
    }
}

/// Reads what one side contributes to the position.
fn side_view(board: &cozy_chess::Board, color: usize) -> (side: SideView)
    requires
        color < 2,
    ensures
        side == side_of(board_pieces(*board), board_castling(*board), color as int),
{
    SideView {
        pawns: board_squares(board, color, 0),
        knights: board_squares(board, color, 1),
        bishops: board_squares(board, color, 2),
        rooks: board_squares(board, color, 3),
        queens: board_squares(board, color, 4),
        kings: board_squares(board, color, 5),
        castle_short: board_castle_short(board, color),
        castle_long: board_castle_long(board, color),
    }
}

impl BoardView {
    /// Reads a position from a `cozy_chess::Board`: the view holds the
    /// board's pieces, castling rights, en-passant file and side to move.
    pub fn from_board(board: &cozy_chess::Board) -> (view: BoardView)
        ensures
            view == view_of(
                board_pieces(*board),
                board_castling(*board),
                board_en_passant_file(*board),
                board_white_turn(*board),
            ),
    {
        let en_passant = match board_en_passant(board) {
            Some(index) => File::from_index(index),
            None => None,
        };
        let side_to_move = if board_white_to_move(board) {
            Color::White
        } else {
            Color::Black
        };
        BoardView { white: side_view(board, 0), black: side_view(board, 1), en_passant, side_to_move }
    }
}

impl DecodedMove {
    /// The move as a `cozy_chess::Move`: from the square on `from_file` and
    /// `from_rank` to the square on `to_file` and `to_rank`, with the
    /// promotion piece if there is one. Whether the move is legal in any
    /// position is not looked at.
    pub fn to_cozy(&self) -> (mv: cozy_chess::Move)
        requires
            self.wf(),
        ensures
            mv == cozy_move_of(
                self.from_file,
                self.from_rank,
                self.to_file,
                self.to_rank,
                promotion_piece(self.promotion),
            ),
    {
        let promotion: Option<u8> = match self.promotion {
            Promotion::NoPromotion => None,
            Promotion::Knight => Some(1),
            Promotion::Bishop => Some(2),
            Promotion::Rook => Some(3),
            Promotion::Queen => Some(4),
        };
        cozy_move(self.from_file, self.from_rank, self.to_file, self.to_rank, promotion)
    }
}

} // verus!
