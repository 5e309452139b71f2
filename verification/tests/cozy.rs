use cozy_chess::{Board, Color as CozyColor, Move, Piece, Rank, Square};
use polyglot::zobrist::KEY_COUNT;
use polyglot::{BoardView, Color, DecodedMove, File, Promotion, Zobrist};

fn mixed_keys() -> [u64; KEY_COUNT] {
    let mut keys = [0u64; KEY_COUNT];
    for (index, key) in keys.iter_mut().enumerate() {
        *key = (index as u64 + 1).wrapping_mul(0x9E37_79B9_7F4A_7C15);
    }
    keys
}

fn play(board: &mut Board, moves: &[&str]) {
    for text in moves {
        let mv: Move = text.parse().unwrap();
        board.play(mv);
    }
}

fn position(moves: &[&str]) -> Board {
    let mut board = Board::startpos();
    play(&mut board, moves);
    board
}

/// The fingerprint computed directly on a `cozy_chess` board: piece keys by
/// colour, kind and square, castling keys, the en-passant key where a pawn
/// of the side to move stands next to the target file, and the turn key.
fn fingerprint_on_board(keys: &[u64; KEY_COUNT], board: &Board) -> u64 {
    let mut hash = 0;
    for color in [CozyColor::White, CozyColor::Black] {
        for piece in Piece::ALL {
            for square in board.colored_pieces(color, piece) {
                let group = 2 * (piece as usize) + if color == CozyColor::White { 1 } else { 0 };
                hash ^= keys[64 * group + square as usize];
            }
        }
    }
    let rights = [
        board.castle_rights(CozyColor::White).short.is_some(),
        board.castle_rights(CozyColor::White).long.is_some(),
        board.castle_rights(CozyColor::Black).short.is_some(),
        board.castle_rights(CozyColor::Black).long.is_some(),
    ];
    for (i, held) in rights.iter().enumerate() {
        if *held {
            hash ^= keys[768 + i];
        }
    }
    if let Some(file) = board.en_passant() {
        let side = board.side_to_move();
        let rank = match side {
            CozyColor::White => Rank::Fifth,
            CozyColor::Black => Rank::Fourth,
        };
        let pawns = board.colored_pieces(side, Piece::Pawn);
        if !file.adjacent().is_disjoint(pawns & rank.bitboard()) {
            hash ^= keys[772 + file as usize];
        }
    }
    if board.side_to_move() == CozyColor::White {
        hash ^= keys[780];
    }
    hash
}

#[test]
fn start_position_reads_as_the_initial_view() {
    assert_eq!(BoardView::from_board(&Board::startpos()), BoardView::initial());
}

#[test]
fn view_after_a_double_pawn_step() {
    let view = BoardView::from_board(&position(&["e2e4"]));
    assert_eq!(view.side_to_move, Color::Black);
    assert_eq!(view.en_passant, Some(File::E));
    assert_eq!(view.white.pawns, 0xFF00 ^ (1 << 12) ^ (1 << 28));
    assert_eq!(view.black, BoardView::initial().black);
    let view = BoardView::from_board(&position(&["e2e4", "a7a5"]));
    assert_eq!(view.side_to_move, Color::White);
    assert_eq!(view.en_passant, Some(File::A));
    assert_eq!(view.black.pawns, 0x00FF_0000_0000_0000 ^ (1 << 48) ^ (1 << 32));
    let view = BoardView::from_board(&position(&["h2h4"]));
    assert_eq!(view.en_passant, Some(File::H));
    let view = BoardView::from_board(&position(&["e2e4", "g8f6"]));
    assert_eq!(view.en_passant, None);
    assert_eq!(view.black.knights, (1 << 57) | (1 << 45));
}

#[test]
fn view_tracks_castling_rights() {
    // The white king moves: White loses both rights, Black keeps both.
    let view = BoardView::from_board(&position(&["e2e4", "e7e5", "e1e2"]));
    assert!(!view.white.castle_short);
    assert!(!view.white.castle_long);
    assert!(view.black.castle_short);
    assert!(view.black.castle_long);
    assert_eq!(view.white.kings, 1 << 12);
    // The rook on h1 moves: White loses the short right only.
    let view = BoardView::from_board(&position(&["h2h4", "a7a5", "h1h3"]));
    assert!(!view.white.castle_short);
    assert!(view.white.castle_long);
    assert_eq!(view.white.rooks, 1 | (1 << 23));
    // The rook on a8 moves: Black loses the long right only.
    let view = BoardView::from_board(&position(&["h2h4", "a7a5", "h1h3", "a8a6"]));
    assert!(view.black.castle_short);
    assert!(!view.black.castle_long);
    assert_eq!(view.black.rooks, (1 << 63) | (1 << 40));
}

#[test]
fn view_of_a_position_with_every_kind_moved() {
    let board: Board = "r3k2r/pp1b1ppp/2n1pn2/q1pp4/3P1B2/2PBPN2/PP1N1PPP/R2QK2R w KQkq - 0 9"
        .parse()
        .unwrap();
    let view = BoardView::from_board(&board);
    let at = |file: u32, rank: u32| 1u64 << (8 * rank + file);
    assert_eq!(view.side_to_move, Color::White);
    assert_eq!(view.en_passant, None);
    assert_eq!(view.white.kings, at(4, 0));
    assert_eq!(view.white.queens, at(3, 0));
    assert_eq!(view.white.rooks, at(0, 0) | at(7, 0));
    assert_eq!(view.white.bishops, at(3, 2) | at(5, 3));
    assert_eq!(view.white.knights, at(3, 1) | at(5, 2));
    assert_eq!(
        view.white.pawns,
        at(0, 1) | at(1, 1) | at(2, 2) | at(3, 3) | at(4, 2) | at(5, 1) | at(6, 1) | at(7, 1)
    );
    assert_eq!(view.black.kings, at(4, 7));
    assert_eq!(view.black.queens, at(0, 4));
    assert_eq!(view.black.rooks, at(0, 7) | at(7, 7));
    assert_eq!(view.black.bishops, at(3, 6));
    assert_eq!(view.black.knights, at(2, 5) | at(5, 5));
    assert_eq!(
        view.black.pawns,
        at(0, 6) | at(1, 6) | at(2, 4) | at(3, 4) | at(4, 5) | at(5, 6) | at(6, 6) | at(7, 6)
    );
    assert!(view.white.castle_short && view.white.castle_long);
    assert!(view.black.castle_short && view.black.castle_long);
}

#[test]
fn fingerprint_agrees_with_direct_computation_on_boards() {
    let keys = mixed_keys();
    let zobrist = Zobrist::new(keys);
    let lines: [&[&str]; 10] = [
        &[],
        &["e2e4"],
        &["e2e4", "d7d5"],
        &["e2e4", "d7d5", "e4e5"],
        &["e2e4", "d7d5", "e4e5", "f7f5"],
        &["e2e4", "d7d5", "e4e5", "f7f5", "e1e2"],
        &["e2e4", "d7d5", "e4e5", "f7f5", "e1e2", "e8f7"],
        &["a2a4", "b7b5", "h2h4", "b5b4", "c2c4"],
        &["a2a4", "b7b5", "h2h4", "b5b4", "c2c4", "b4c3", "a1a3"],
        &["g1f3", "g8f6", "g2g3", "g7g6", "f1g2", "f8g7", "e1h1", "e8h8"],
    ];
    for line in lines {
        let board = position(line);
        let view = BoardView::from_board(&board);
        assert_eq!(zobrist.compute(&view), fingerprint_on_board(&keys, &board), "{:?}", line);
    }
}

#[test]
fn en_passant_key_on_boards() {
    let keys = mixed_keys();
    let zobrist = Zobrist::new(keys);
    // After 1. e4 d5 2. e5 f5 White can take on f6: the key of file f counts.
    let view = BoardView::from_board(&position(&["e2e4", "d7d5", "e4e5", "f7f5"]));
    assert_eq!(view.en_passant, Some(File::F));
    assert_eq!(zobrist.en_passant_hash(&view), keys[772 + 5]);
    // After 1. e4 no black pawn can take on e3: no key.
    let view = BoardView::from_board(&position(&["e2e4"]));
    assert_eq!(view.en_passant, Some(File::E));
    assert_eq!(zobrist.en_passant_hash(&view), 0);
    // After 1. a4 b5 2. h4 b4 3. c4 Black can take on c3.
    let view = BoardView::from_board(&position(&["a2a4", "b7b5", "h2h4", "b5b4", "c2c4"]));
    assert_eq!(view.en_passant, Some(File::C));
    assert_eq!(zobrist.en_passant_hash(&view), keys[772 + 2]);
}

#[test]
fn decoded_move_becomes_a_board_move() {
    let e2e4 = DecodedMove {
        from_file: 4,
        from_rank: 1,
        to_file: 4,
        to_rank: 3,
        promotion: Promotion::NoPromotion,
    };
    assert_eq!(e2e4.to_cozy(), "e2e4".parse::<Move>().unwrap());
    assert_eq!(
        e2e4.to_cozy(),
        Move { from: Square::E2, to: Square::E4, promotion: None }
    );
    let a7b8 = |promotion| DecodedMove { from_file: 0, from_rank: 6, to_file: 1, to_rank: 7, promotion };
    assert_eq!(a7b8(Promotion::Knight).to_cozy(), "a7b8n".parse::<Move>().unwrap());
    assert_eq!(a7b8(Promotion::Bishop).to_cozy(), "a7b8b".parse::<Move>().unwrap());
    assert_eq!(a7b8(Promotion::Rook).to_cozy(), "a7b8r".parse::<Move>().unwrap());
    assert_eq!(a7b8(Promotion::Queen).to_cozy(), "a7b8q".parse::<Move>().unwrap());
    assert_eq!(
        a7b8(Promotion::Queen).to_cozy(),
        Move { from: Square::A7, to: Square::B8, promotion: Some(Piece::Queen) }
    );
    let h8a1 = DecodedMove {
        from_file: 7,
        from_rank: 7,
        to_file: 0,
        to_rank: 0,
        promotion: Promotion::NoPromotion,
    };
    assert_eq!(h8a1.to_cozy(), Move { from: Square::H8, to: Square::A1, promotion: None });
}

#[test]
fn book_move_plays_on_the_board() {
    let decoded = DecodedMove::decode(0x031C).unwrap().unwrap();
    let mut board = Board::startpos();
    assert!(board.try_play(decoded.to_cozy()).is_ok());
    assert_eq!(BoardView::from_board(&board), BoardView::from_board(&position(&["e2e4"])));
}
