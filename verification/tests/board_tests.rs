//! Tests of the bitboard engine: starting layout, legal-move generation,
//! move application, terminal detection, and notation parsing.

use othello::bits::mask_to_moves;
use othello::bits::popcount;
use othello::board::Board;
use othello::player::Human;
use othello::utils::ansi_for;
use othello::utils::color;

#[test]
fn starting_layout() {
    let b = Board::new();
    assert_eq!(b.get_x(), (1u64 << 27) | (1u64 << 36));
    assert_eq!(b.get_o(), (1u64 << 28) | (1u64 << 35));
    assert_eq!(b.get_x() & b.get_o(), 0);
}

#[test]
fn starting_legal_moves_exact() {
    let b = Board::new();
    let expected = (1u64 << 20) | (1u64 << 29) | (1u64 << 34) | (1u64 << 43);
    assert_eq!(b.legal_moves(true), expected);
    assert_eq!(b.num_moves(true), 4);
    assert_eq!(b.num_moves(false), 4);
}

#[test]
fn legal_moves_on_empty_squares_only() {
    let mut b = Board::new();
    // Walk a few moves and check legality soundness at every step.
    for turn in 0..10 {
        let x_turn = turn % 2 == 0;
        assert_eq!(b.legal_moves(true) & (b.get_x() | b.get_o()), 0);
        assert_eq!(b.legal_moves(false) & (b.get_x() | b.get_o()), 0);
        let moves = b.moves_iter(x_turn);
        if let Some(&mv) = moves.first() {
            b.apply_move(mv, x_turn);
        }
        // Mask disjointness holds on every reachable position.
        assert_eq!(b.get_x() & b.get_o(), 0);
    }
}

#[test]
fn flip_example_from_start() {
    // X plays the capturing move with the lowest bit index; one O disc is
    // flipped, so X goes from 2 discs to 4 and O from 2 down to 1.
    let mut b = Board::new();
    let moves = b.moves_iter(true);
    assert_eq!(moves.len(), 4);
    let mv = moves[0];
    assert_eq!(mv, 1u64 << 20);
    assert!(b.is_legal(mv, true));
    b.apply_move(mv, true);
    assert_eq!(b.get_x().count_ones(), 4);
    assert_eq!(b.get_o().count_ones(), 1);
    assert_eq!(b.get_x() & b.get_o(), 0);
}

#[test]
fn terminal_agreement() {
    let start = Board::new();
    // One side has a move, so the game is not over.
    assert!(start.legal_moves(true) != 0);
    assert!(!start.is_over());

    // A lone disc with no opponent discs leaves neither side a move.
    let lone = Board::from_masks(0b111, 0);
    assert_eq!(lone.legal_moves(true), 0);
    assert_eq!(lone.legal_moves(false), 0);
    assert!(lone.is_over());

    let empty = Board::from_masks(0, 0);
    assert!(empty.is_over());
}

#[test]
fn moves_iter_increasing_single_bits() {
    let b = Board::new();
    let moves = b.moves_iter(true);
    let mut prev = 0u64;
    for &mv in &moves {
        assert_eq!(mv.count_ones(), 1);
        assert!(mv > prev);
        assert!(b.legal_moves(true) & mv != 0);
        prev = mv;
    }
}

#[test]
fn apply_move_wraparound_edges() {
    // A mover disc on the rightmost file and an opponent disc on the next
    // row's leftmost file must not interact through an eastward scan.
    let b = Board::from_masks(1u64 << 7, 1u64 << 8);
    // Square 9 would be "past" square 8 eastward; it is not a legal move.
    assert_eq!(b.legal_moves(true) & (1u64 << 9), 0);
}

#[test]
fn popcount_and_mask_to_moves() {
    assert_eq!(popcount(0), 0);
    assert_eq!(popcount(u64::MAX), 64);
    assert_eq!(popcount(0b1011), 3);
    let ms = mask_to_moves(0b1011);
    assert_eq!(ms, vec![1, 2, 8]);
}

#[test]
fn board_at_symbols() {
    let b = Board::new();
    // Bit 27 is row 3, col 3 (X); bit 28 is row 3, col 4 (O).
    assert_eq!(b.at(3, 3), 'x');
    assert_eq!(b.at(3, 4), 'o');
    assert_eq!(b.at(0, 0), '.');
}

#[test]
fn get_move_bit_positions() {
    assert_eq!(Board::get_move(0, 0), 1);
    assert_eq!(Board::get_move(7, 7), 1u64 << 63);
    assert_eq!(Board::get_move(3, 3), 1u64 << 27);
}

#[test]
fn parse_input_valid() {
    // Rank 8 is row 0, file a is column 0.
    assert_eq!(Human::parse_input("a8"), Some(1u64 << 0));
    assert_eq!(Human::parse_input("h8"), Some(1u64 << 7));
    assert_eq!(Human::parse_input("a1"), Some(1u64 << 56));
    assert_eq!(Human::parse_input("h1"), Some(1u64 << 63));
    assert_eq!(Human::parse_input("d5"), Some(1u64 << 27));
}

#[test]
fn parse_input_rejects_malformed() {
    assert_eq!(Human::parse_input(""), None);
    assert_eq!(Human::parse_input("a"), None);
    assert_eq!(Human::parse_input("a12"), None);
    assert_eq!(Human::parse_input("i1"), None);
    assert_eq!(Human::parse_input("a9"), None);
    assert_eq!(Human::parse_input("a0"), None);
    assert_eq!(Human::parse_input("4a"), None);
}

#[test]
fn color_wraps_with_ansi_codes() {
    assert_eq!(color("hi", "\x1b[96m"), "\x1b[96mhi\x1b[0m");
    assert_eq!(ansi_for('x'), "\x1b[96m");
    assert_eq!(ansi_for('o'), "\x1b[95m");
    assert_eq!(ansi_for('q'), "\x1b[0m");
}
