use pawn_appetit::eval::{count_material, detect_sacrifice, naive_eval, piece_value, qsearch};

const START: &str = "rnbqkbnr/pppppppp/8/8/8/8/PPPPPPPP/RNBQKBNR w KQkq - 0 1";

#[test]
fn pieces_have_their_worth() {
    assert_eq!(piece_value(1), 100);
    assert_eq!(piece_value(2), 300);
    assert_eq!(piece_value(3), 300);
    assert_eq!(piece_value(4), 500);
    assert_eq!(piece_value(5), 900);
    assert_eq!(piece_value(6), 0);
    assert_eq!(piece_value(0), 0);
    assert_eq!(piece_value(7), 0);
}

#[test]
fn material_is_counted_for_the_side_to_move() {
    assert_eq!(count_material(START), 0);
    let white_up_a_queen = "rnb1kbnr/pppppppp/8/8/8/8/PPPPPPPP/RNBQKBNR w KQkq - 0 1";
    assert_eq!(count_material(white_up_a_queen), 900);
    let same_for_black = "rnb1kbnr/pppppppp/8/8/8/8/PPPPPPPP/RNBQKBNR b KQkq - 0 1";
    assert_eq!(count_material(same_for_black), -900);
    let bare = "4k3/8/8/8/8/8/P7/4K3 w - - 0 1";
    assert_eq!(count_material(bare), 100);
}

#[test]
fn a_mated_side_has_the_mated_worth() {
    let fools_mate = "rnb1kbnr/pppp1ppp/8/4p3/6Pq/5P2/PPPPP2P/RNBQKBNR w KQkq - 1 3";
    assert_eq!(count_material(fools_mate), -10000);
    assert_eq!(naive_eval(fools_mate), i32::MIN);
}

#[test]
fn a_stalemate_is_worth_nothing() {
    let stalemate = "7k/5Q2/6K1/8/8/8/8/8 b - - 0 1";
    assert_eq!(naive_eval(stalemate), 0);
}

#[test]
fn what_sets_up_no_position_is_worth_nothing() {
    assert_eq!(count_material("nonsense"), 0);
    assert_eq!(naive_eval("nonsense"), 0);
}

#[test]
fn evaluation_of_the_starting_position() {
    assert_eq!(naive_eval(START), 0);
}

#[test]
fn evaluation_with_a_mate_in_one() {
    // The queen mates on g2 and on h2, and a mated side is worth -10000 to itself.
    let fen = "rnrq4/8/8/1R6/1R6/1R5K/1Q6/7k w - - 0 1";
    let mated = "rnrq4/8/8/1R6/1R6/1R5K/6Q1/7k b - - 1 1";
    assert_eq!(count_material(mated), -10000);
    assert_eq!(naive_eval(fen), 10000);
}

#[test]
fn evaluation_with_a_rook_to_win() {
    // The same position without the queen: taking the knight on b8 wins a rook in the end.
    let after_capture = "rRrq4/8/8/8/1R6/1R5K/1Q6/7k b - - 0 1";
    assert_eq!(count_material(after_capture), -500);
    assert_eq!(qsearch(after_capture, i32::MIN, i32::MAX), -500);
}

#[test]
fn evaluation_with_a_pawn_to_win() {
    assert_eq!(
        naive_eval("r1bqkbnr/ppp1pppp/2n5/1B1p4/4P3/5N2/PPPP1PPP/RNBQK2R b KQkq - 3 3"),
        100
    );
}

#[test]
fn search_is_cut_off_at_beta() {
    assert_eq!(qsearch(START, -50, -10), -10);
    assert_eq!(qsearch(START, i32::MIN, i32::MIN), i32::MIN);
}

#[test]
fn search_without_captures_gives_the_material() {
    assert_eq!(qsearch(START, i32::MIN, i32::MAX), 0);
    assert_eq!(qsearch(START, 25, i32::MAX), 25);
}

#[test]
fn search_follows_the_best_capture() {
    let hanging_queen = "4k3/8/8/3q4/4P3/8/8/4K3 w - - 0 1";
    assert_eq!(count_material(hanging_queen), -800);
    assert_eq!(qsearch(hanging_queen, i32::MIN, i32::MAX), 100);
}

#[test]
fn a_bishop_left_to_be_taken_is_a_sacrifice() {
    let before = "rnbqkb1r/1ppp1ppp/p4n2/1B2p3/4P3/5N2/PPPP1PPP/RNBQK2R w KQkq - 0 4";
    let after = "rnbqkb1r/1ppp1ppp/p1B2n2/4p3/4P3/5N2/PPPP1PPP/RNBQK2R b KQkq - 1 4";
    assert!(detect_sacrifice(before, after));
}

#[test]
fn the_bishop_on_c6_is_a_sacrifice() {
    let current = "rnbqkbnr/ppp2ppp/2B5/3pp3/4P3/5N2/PPPP1PPP/RNBQK2R b KQkq - 0 4";
    let previous = "rnbqkbnr/ppp2ppp/8/3pp3/2B1P3/5N2/PPPP1PPP/RNBQK2R w KQkq - 0 4";
    assert!(naive_eval(previous) >= -naive_eval(current) + 100);
    assert!(detect_sacrifice(previous, current));
}

#[test]
fn a_quiet_move_is_no_sacrifice() {
    let before = START;
    let after = "rnbqkbnr/pppppppp/8/8/4P3/8/PPPP1PPP/RNBQKBNR b KQkq - 0 1";
    assert!(!detect_sacrifice(before, after));
}

#[test]
fn a_board_full_of_queens_is_evaluated_like_any_other() {
    let crowded = "QQQQQQBk/Q6B/Q6Q/Q6Q/Q6Q/Q6Q/Q6Q/KQQQQQQQ w - - 0 1";
    let mated = "QQQQQQBk/6QB/Q6Q/Q6Q/Q6Q/Q6Q/Q6Q/KQQQQQQQ b - - 1 1";
    assert_eq!(count_material(crowded), 24 * 900 + 2 * 300);
    assert_eq!(qsearch(crowded, i32::MIN, i32::MAX), 24 * 900 + 2 * 300);
    assert_eq!(count_material(mated), -10000);
    assert_eq!(naive_eval(mated), i32::MIN);
    // The queen mates on g7, which is worth 10000; any other move leaves Black
    // without a move and without a capture, which is worth the material.
    let stalemate = "QQQQQQBk/1Q5B/Q6Q/Q6Q/Q6Q/Q6Q/Q6Q/KQQQQQQQ b - - 1 1";
    assert_eq!(qsearch(stalemate, i32::MIN + 1, i32::MAX), -(24 * 900 + 2 * 300));
    assert_eq!(naive_eval(stalemate), 0);
    assert_eq!(naive_eval(crowded), 24 * 900 + 2 * 300);
}
