//! The position fingerprint that keys an opening book.
//!
//! A fingerprint is the exclusive-or of keys drawn from a table of 781
//! 64-bit constants: one key for every piece on its square, one for every
//! castling right still held, one for the en-passant file when a capture is
//! actually possible, and one when White is to move.
//!
//! The table is laid out as 12 groups of 64 piece keys (indices 0 to 767, the
//! group given by [`ColoredPiece::index`], the key within it by the square),
//! 4 castling keys (768 to 771, in the order White short, White long, Black
//! short, Black long), 8 en-passant keys (772 to 779, by file) and the key
//! for White to move (780).

use crate::board::{
    contains_square, has_square, initial_position, lowest_square, square_at, without_square,
    BoardView, Color, ColoredPiece, PieceKind,
};
use vstd::prelude::*;

verus! {

/// The number of keys in a table.
pub const KEY_COUNT: usize = 781;

/// The number of piece keys, which come first.
pub const PIECE_KEYS: usize = 768;

/// The index of the first castling key.
pub const CASTLE_BASE: usize = 768;

/// The index of the en-passant key of file a.
pub const EN_PASSANT_BASE: usize = 772;

/// The index of the key for White to move.
pub const TURN_INDEX: usize = 780;

/// The fingerprint of the standard initial position under the published key
/// table.
pub const INITIAL_FINGERPRINT: u64 = 0x463B_9618_1691_FC9C;

/// `keys[index]` if `included`, else the neutral element of exclusive-or.
pub open spec fn keyed(keys: Seq<u64>, index: int, included: bool) -> u64 {
    if included {
        keys[index]
    } else {
        0
    }
}

/// The key of a piece on a square.
pub open spec fn piece_key(keys: Seq<u64>, piece: ColoredPiece, square: int) -> u64 {
    keys[64 * piece.spec_index() + square]
}

/// What piece key number `slot` contributes: the key itself if the piece of
/// group `slot / 64` stands on square `slot % 64`, else nothing.
pub open spec fn slot_part(keys: Seq<u64>, view: BoardView, slot: int) -> u64 {
    keyed(keys, slot, view.has_piece(ColoredPiece::spec_from_index(slot / 64), slot % 64))
}

/// The exclusive-or of the contributions of the first `n` piece keys.
pub open spec fn piece_part_upto(keys: Seq<u64>, view: BoardView, n: nat) -> u64
    decreases n,
{
    if n == 0 {
        0
    } else {
        piece_part_upto(keys, view, (n - 1) as nat) ^ slot_part(keys, view, n - 1)
    }
}

/// The exclusive-or of the keys of all pieces on the board.
pub open spec fn piece_part(keys: Seq<u64>, view: BoardView) -> u64 {
    piece_part_upto(keys, view, PIECE_KEYS as nat)
}

/// The exclusive-or of the keys of the castling rights still held.
pub open spec fn castle_part(keys: Seq<u64>, view: BoardView) -> u64 {
    keyed(keys, CASTLE_BASE as int, view.white.castle_short) ^ keyed(
        keys,
        CASTLE_BASE + 1,
        view.white.castle_long,
    ) ^ keyed(keys, CASTLE_BASE + 2, view.black.castle_short) ^ keyed(
        keys,
        CASTLE_BASE + 3,
        view.black.castle_long,
    )
}

/// The rank, counted from 0, on which a pawn of the side to move must stand
/// to capture en passant: the fifth rank for White, the fourth for Black.
pub open spec fn capture_rank(side: Color) -> int {
    match side {
        Color::White => 4,
        Color::Black => 3,
    }
}

/// Whether an en-passant target is recorded and the side to move has a pawn
/// that could take it: one on a file next to the target file, on the rank
/// from which such a capture is made.
pub open spec fn en_passant_capturable(view: BoardView) -> bool {
    match view.en_passant {
        Some(file) => {
            let pawn = ColoredPiece::spec_new(view.side_to_move, PieceKind::Pawn);
            let rank = capture_rank(view.side_to_move);
            let f = file.spec_index() as int;
            ||| f >= 1 && view.has_piece(pawn, square_at(f - 1, rank))
            ||| f <= 6 && view.has_piece(pawn, square_at(f + 1, rank))
        },
        None => false,
    }
}

/// The key of the en-passant file if a capture is possible, else nothing.
pub open spec fn en_passant_part(keys: Seq<u64>, view: BoardView) -> u64 {
    match view.en_passant {
        Some(file) => keyed(
            keys,
            EN_PASSANT_BASE + file.spec_index(),
            en_passant_capturable(view),
        ),
        None => 0,
    }
}

/// The key for White to move, or nothing when Black is to move.
pub open spec fn turn_part(keys: Seq<u64>, white_to_move: bool) -> u64 {
    keyed(keys, TURN_INDEX as int, white_to_move)
}

/// The fingerprint of a position under a table of keys.
pub open spec fn fingerprint(keys: Seq<u64>, view: BoardView) -> u64 {
    piece_part(keys, view) ^ castle_part(keys, view) ^ en_passant_part(keys, view) ^ turn_part(
        keys,
        view.side_to_move == Color::White,
    )
}

/// Squares on which no piece of a group stands add nothing to the combined
/// piece keys.
proof fn lemma_no_pieces_between(keys: Seq<u64>, view: BoardView, group: int, from: int, to: int)
    requires
        0 <= group < 12,
        0 <= from <= to <= 64,
        forall|s: int|
            from <= s < to ==> !contains_square(
                view.spec_occupied_by(ColoredPiece::spec_from_index(group)),
                s,
            ),
    ensures
        piece_part_upto(keys, view, (64 * group + to) as nat) == piece_part_upto(
            keys,
            view,
            (64 * group + from) as nat,
        ),
    decreases to - from,
{
    if from < to {
        lemma_no_pieces_between(keys, view, group, from, to - 1);
        let slot = 64 * group + to - 1;
        assert(slot / 64 == group && slot % 64 == to - 1);
        let before = piece_part_upto(keys, view, slot as nat);
        assert(before ^ 0 == before) by (bit_vector);
    }
}

/// Computes fingerprints from a key table that it owns and never changes.
pub struct Zobrist {
    keys: [u64; KEY_COUNT],
}

impl View for Zobrist {
    type V = Seq<u64>;

    /// The key table.
    closed spec fn view(&self) -> Seq<u64> {
        self.keys@
    }
}

impl Zobrist {
    /// Takes a key table into use.
    pub fn new(keys: [u64; KEY_COUNT]) -> (zobrist: Zobrist)
        ensures
            zobrist@ == keys@,
    {
        Zobrist { keys }
    }

    /// The key table.
    pub fn keys(&self) -> (keys: &[u64; KEY_COUNT])
        ensures
            keys@ == self@,
    {
        &self.keys
    }

    /// Tells whether the table gives the standard initial position its
    /// published fingerprint. A table that fails this test is not the
    /// published one, and books keyed by the published table will not match
    /// the fingerprints it produces.
    pub fn reproduces_reference(&self) -> (ok: bool)
        ensures
            ok == (fingerprint(self@, initial_position()) == INITIAL_FINGERPRINT),
    {
        let view = BoardView::initial();
        self.compute(&view) == INITIAL_FINGERPRINT
    }

    /// The key of a piece on a square.
    pub fn piece_hash(&self, piece: ColoredPiece, square: u8) -> (key: u64)
        requires
            square < 64,
        ensures
            key == piece_key(self@, piece, square as int),
    {
        self.keys[64 * piece.index() + square as usize]
    }

    /// The combined keys of the castling rights that the position still holds.
    pub fn castle_hash(&self, view: &BoardView) -> (hash: u64)
        ensures
            hash == castle_part(self@, *view),
    {
        let white_short: u64 = if view.white.castle_short {
            self.keys[CASTLE_BASE]
        } else {
            0
        };
        let white_long: u64 = if view.white.castle_long {
            self.keys[CASTLE_BASE + 1]
        } else {
            0
        };
        let black_short: u64 = if view.black.castle_short {
            self.keys[CASTLE_BASE + 2]
        } else {
            0
        };
        let black_long: u64 = if view.black.castle_long {
            self.keys[CASTLE_BASE + 3]
        } else {
            0
        };
        white_short ^ white_long ^ black_short ^ black_long
    }

    /// The key of the en-passant file, if one is recorded and the side to
    /// move has a pawn placed to capture; zero otherwise.
    pub fn en_passant_hash(&self, view: &BoardView) -> (hash: u64)
        ensures
            hash == en_passant_part(self@, *view),
    {
        match view.en_passant {
            Some(file) => {
                let f: u8 = file.index();
                let base: u8 = match view.side_to_move {
                    Color::White => 32,
                    Color::Black => 24,
                };
                let pawns = view.occupied(view.side_to_move, PieceKind::Pawn);
                let left = f >= 1 && has_square(pawns, base + f - 1);
                let right = f <= 6 && has_square(pawns, base + f + 1);
                if left || right {
                    self.keys[EN_PASSANT_BASE + f as usize]
                } else {
                    0
                }
            },
            None => 0,
        }
    }

    /// The key for White to move, or zero when Black is to move.
    pub fn turn_hash(&self, is_white_to_move: bool) -> (hash: u64)
        ensures
            hash == turn_part(self@, is_white_to_move),
    {
        if is_white_to_move {
            self.keys[TURN_INDEX]
        } else {
            0
        }
    }

    /// The fingerprint of a position.
    pub fn compute(&self, view: &BoardView) -> (hash: u64)
        ensures
            hash == fingerprint(self@, *view),
    {
        let mut piece_hash: u64 = 0;
        let mut group: usize = 0;
        while group < 12
            invariant
                group <= 12,
                piece_hash == piece_part_upto(self@, *view, (64 * group) as nat),
            decreases 12 - group,
        {
            if let Some(piece) = ColoredPiece::from_index(group) {
                let squares = view.occupied_by(piece);
                let mut rest = squares;
                let mut done: u8 = 0;
                while rest != 0
                    invariant
                        done <= 64,
                        group < 12,
                        piece == ColoredPiece::spec_from_index(group as int),
                        squares == view.spec_occupied_by(piece),
                        forall|s: int|
                            contains_square(rest, s) == (contains_square(squares, s) && s >= done),
                        piece_hash == piece_part_upto(self@, *view, (64 * group + done) as nat),
                    decreases 64 - done,
                {
                    let square = lowest_square(rest);
                    proof {
                        lemma_no_pieces_between(
                            self@,
                            *view,
                            group as int,
                            done as int,
                            square as int,
                        );
                        let slot = 64 * group + square;
                        assert(slot / 64 == group as int && slot % 64 == square as int);
                    }
                    piece_hash = piece_hash ^ self.piece_hash(piece, square);
                    rest = without_square(rest, square);
                    done = square + 1;
                }
                proof {
                    assert forall|s: int| done <= s < 64 implies !contains_square(squares, s) by {
                        assert(!contains_square(0, s)) by {
                            let j = s as u64;
                            assert((0u64 >> j) & 1 == 0) by (bit_vector);
                        }
                    }
                    lemma_no_pieces_between(self@, *view, group as int, done as int, 64);
                }
            }
            group = group + 1;
        }
        let white_to_move = match view.side_to_move {
            Color::White => true,
            Color::Black => false,
        };
        piece_hash ^ self.castle_hash(view) ^ self.en_passant_hash(view) ^ self.turn_hash(
            white_to_move,
        )
    }
}

/// Two positions have the same pieces on the same squares.
pub open spec fn same_pieces(a: BoardView, b: BoardView) -> bool {
    forall|piece: ColoredPiece, square: int|
        0 <= square < 64 ==> a.has_piece(piece, square) == b.has_piece(piece, square)
}

/// Two positions agree on everything but the pieces: castling rights,
/// en-passant file and side to move.
pub open spec fn same_state(a: BoardView, b: BoardView) -> bool {
    &&& a.white.castle_short == b.white.castle_short
    &&& a.white.castle_long == b.white.castle_long
    &&& a.black.castle_short == b.black.castle_short
    &&& a.black.castle_long == b.black.castle_long
    &&& a.en_passant == b.en_passant
    &&& a.side_to_move == b.side_to_move
}

/// `after` is `before` with `piece` taken off `square`, and no other change.
pub open spec fn piece_removed(
    before: BoardView,
    after: BoardView,
    piece: ColoredPiece,
    square: int,
) -> bool {
    &&& 0 <= square < 64
    &&& before.has_piece(piece, square)
    &&& !after.has_piece(piece, square)
    &&& forall|p: ColoredPiece, s: int|
        0 <= s < 64 && !(p == piece && s == square) ==> before.has_piece(p, s) == after.has_piece(
            p,
            s,
        )
    &&& same_state(before, after)
}

/// Every piece key index below 768 names exactly one piece and square.
proof fn lemma_slot(slot: int)
    requires
        0 <= slot < 768,
    ensures
        0 <= slot / 64 < 12,
        0 <= slot % 64 < 64,
        ColoredPiece::spec_from_index(slot / 64).spec_index() == slot / 64,
        64 * ColoredPiece::spec_from_index(slot / 64).spec_index() + slot % 64 == slot,
{
}

/// Positions with the same pieces have the same piece keys combined.
pub proof fn lemma_same_pieces(keys: Seq<u64>, a: BoardView, b: BoardView, n: nat)
    requires
        same_pieces(a, b),
        n <= 768,
    ensures
        piece_part_upto(keys, a, n) == piece_part_upto(keys, b, n),
    decreases n,
{
    if n > 0 {
        lemma_same_pieces(keys, a, b, (n - 1) as nat);
        lemma_slot(n - 1);
    }
}

proof fn lemma_piece_removed_upto(
    keys: Seq<u64>,
    before: BoardView,
    after: BoardView,
    piece: ColoredPiece,
    square: int,
    n: nat,
)
    requires
        piece_removed(before, after, piece, square),
        n <= 768,
    ensures
        n <= 64 * piece.spec_index() + square ==> piece_part_upto(keys, before, n)
            == piece_part_upto(keys, after, n),
        n > 64 * piece.spec_index() + square ==> piece_part_upto(keys, before, n)
            ^ piece_part_upto(keys, after, n) == piece_key(keys, piece, square),
    decreases n,
{
    if n > 0 {
        let slot = n - 1;
        let target = 64 * piece.spec_index() + square;
        lemma_piece_removed_upto(keys, before, after, piece, square, slot as nat);
        lemma_slot(slot);
        let b = piece_part_upto(keys, before, slot as nat);
        let a = piece_part_upto(keys, after, slot as nat);
        let kb = slot_part(keys, before, slot);
        let ka = slot_part(keys, after, slot);
        if slot == target {
            assert(slot / 64 == piece.spec_index() && slot % 64 == square);
            assert(ColoredPiece::spec_from_index(slot / 64) == piece);
            assert(kb == keys[slot] && ka == 0);
            assert((b ^ kb) ^ (b ^ 0) == kb) by (bit_vector);
        } else {
            let p = ColoredPiece::spec_from_index(slot / 64);
            let s = slot % 64;
            assert(!(p == piece && s == square));
            assert(before.has_piece(p, s) == after.has_piece(p, s));
            assert(kb == ka);
            if slot > target {
                assert((b ^ kb) ^ (a ^ kb) == b ^ a) by (bit_vector);
            }
        }
    }
}

/// Taking a single piece off the board, with no other change, changes the
/// fingerprint by that piece's key and by whatever the en-passant key
/// contributed before and after: the removed piece may have been the only
/// pawn placed to capture en passant. Where the en-passant contribution
/// stays the same, the old and the new fingerprint differ by exactly the key
/// of the removed piece.
pub proof fn lemma_piece_removed(
    keys: Seq<u64>,
    before: BoardView,
    after: BoardView,
    piece: ColoredPiece,
    square: int,
)
    requires
        piece_removed(before, after, piece, square),
    ensures
        piece_part(keys, before) ^ piece_part(keys, after) == piece_key(keys, piece, square),
        fingerprint(keys, before) ^ fingerprint(keys, after) == piece_key(keys, piece, square)
            ^ en_passant_part(keys, before) ^ en_passant_part(keys, after),
        en_passant_part(keys, before) == en_passant_part(keys, after) ==> fingerprint(keys, before)
            ^ fingerprint(keys, after) == piece_key(keys, piece, square),
{
    lemma_piece_removed_upto(keys, before, after, piece, square, 768);
    let k = piece_key(keys, piece, square);
    let pb = piece_part(keys, before);
    let pa = piece_part(keys, after);
    let c = castle_part(keys, before);
    let eb = en_passant_part(keys, before);
    let ea = en_passant_part(keys, after);
    let t = turn_part(keys, before.side_to_move == Color::White);
    assert(castle_part(keys, after) == c);
    assert(turn_part(keys, after.side_to_move == Color::White) == t);
    assert({
        &&& (pb ^ c ^ eb ^ t) ^ (pa ^ c ^ ea ^ t) == k ^ eb ^ ea
        &&& (eb == ea ==> (pb ^ c ^ eb ^ t) ^ (pa ^ c ^ ea ^ t) == k)
    }) by (bit_vector)
        requires
            pb ^ pa == k,
    ;
}

/// A recorded en-passant file that no pawn of the side to move can capture
/// on leaves the fingerprint as if no file were recorded at all.
pub proof fn lemma_en_passant_unused(keys: Seq<u64>, view: BoardView)
    requires
        view.en_passant is Some,
        !en_passant_capturable(view),
    ensures
        fingerprint(keys, view) == fingerprint(
            keys,
            (BoardView { en_passant: None, ..view }),
        ),
{
    let bare = BoardView { en_passant: None, ..view };
    lemma_same_pieces(keys, view, bare, 768);
}

} // verus!
