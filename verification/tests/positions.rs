use pawn_appetit::error::Error;
use pawn_appetit::info::{line_from_info, parse_uci_info};
use pawn_appetit::message::{parse_line, InfoLine, Message};
use pawn_appetit::replay::{decode_move, pv_to_san, replay};
use pawn_appetit::types::{invert_score, Score, ScoreValue, Wdl};

const START: &str = "rnbqkbnr/pppppppp/8/8/8/8/PPPPPPPP/RNBQKBNR w KQkq - 0 1";
const AFTER_E4_D5: &str = "rnbqkbnr/ppp1pppp/8/3p4/4P3/8/PPPP1PPP/RNBQKBNR w KQkq - 0 2";

fn strings(items: &[&str]) -> Vec<String> {
    items.iter().map(|s| s.to_string()).collect()
}

fn info_of(line: &str) -> InfoLine {
    match parse_line(line) {
        Message::Info(info) => info,
        other => panic!("not an info line: {:?}", other),
    }
}

#[test]
fn replay_without_moves_gives_the_position_back() {
    assert_eq!(replay(START, &vec![]), Ok(START.to_string()));
}

#[test]
fn replay_writes_the_position_in_its_usual_form() {
    let with_idle_en_passant = "rnbqkbnr/pppppppp/8/8/4P3/8/PPPP1PPP/RNBQKBNR b KQkq e3 0 1";
    assert_eq!(
        replay(with_idle_en_passant, &vec![]),
        Ok("rnbqkbnr/pppppppp/8/8/4P3/8/PPPP1PPP/RNBQKBNR b KQkq - 0 1".to_string())
    );
    assert_eq!(
        replay("  rnbqkbnr/pppppppp/8/8/8/8/PPPPPPPP/RNBQKBNR w KQkq -", &vec![]).is_ok(),
        replay("rnbqkbnr/pppppppp/8/8/8/8/PPPPPPPP/RNBQKBNR w KQkq -", &vec![]).is_ok()
    );
}

#[test]
fn replay_plays_the_moves_in_order() {
    assert_eq!(
        replay(START, &strings(&["e2e4", "d7d5"])),
        Ok("rnbqkbnr/ppp1pppp/8/3p4/4P3/8/PPPP1PPP/RNBQKBNR w KQkq - 0 2".to_string())
    );
}

#[test]
fn replay_rejects_what_is_no_position() {
    assert_eq!(replay("not a fen", &vec![]), Err(Error::InvalidPosition));
    assert_eq!(replay("", &strings(&["e2e4"])), Err(Error::InvalidPosition));
    assert_eq!(replay("8/8/8/8/8/8/8/8 w - - 0 1", &vec![]), Err(Error::InvalidPosition));
}

#[test]
fn replay_rejects_a_move_that_cannot_be_played() {
    assert_eq!(replay(START, &strings(&["e2e5"])), Err(Error::IllegalMove));
    assert_eq!(replay(START, &strings(&["e2e4", "e2e4"])), Err(Error::IllegalMove));
    assert_eq!(replay(START, &strings(&["hello"])), Err(Error::IllegalMove));
}

#[test]
fn replay_tolerates_too_much_material() {
    let crowded = "rnbqkbnr/pppppppp/8/8/8/8/PPPPPPPP/RNBQKBRR w - - 0 1";
    assert_eq!(replay(crowded, &vec![]), Ok(crowded.to_string()));
    assert_eq!(
        replay(crowded, &strings(&["e2e4"])),
        Ok("rnbqkbnr/pppppppp/8/8/4P3/8/PPPP1PPP/RNBQKBRR b - - 0 1".to_string())
    );
}

#[test]
fn a_line_is_written_in_both_notations() {
    let pv = strings(&["e2e4", "e7e5", "g1f3", "b8c6", "f1b5"]);
    assert_eq!(
        pv_to_san(START, &pv),
        Ok((pv.clone(), strings(&["e4", "e5", "Nf3", "Nc6", "Bb5"])))
    );
}

#[test]
fn check_and_mate_are_marked() {
    let pv = strings(&["f2f3", "e7e5", "g2g4", "d8h4"]);
    assert_eq!(pv_to_san(START, &pv), Ok((pv.clone(), strings(&["f3", "e5", "g4", "Qh4#"]))));
    let check = strings(&["e2e4", "d7d5", "f1b5"]);
    assert_eq!(pv_to_san(START, &check), Ok((check.clone(), strings(&["e4", "d5", "Bb5+"]))));
}

#[test]
fn a_line_with_an_unplayable_move_is_rejected() {
    assert_eq!(pv_to_san(START, &strings(&["e2e4", "e2e4"])), Err(Error::IllegalMove));
}

#[test]
fn an_empty_line_is_empty_in_both_notations() {
    assert_eq!(pv_to_san(START, &vec![]), Ok((vec![], vec![])));
}

#[test]
fn score_is_the_engines_for_white_to_move() {
    let info = info_of("info depth 10 multipv 1 score cp 35 pv e4d5");
    let line = line_from_info(&info, AFTER_E4_D5).unwrap();
    assert_eq!(line.score.value, ScoreValue::Cp(35));
    assert_eq!(line.depth, 10);
    assert_eq!(line.multipv, 1);
    assert_eq!(line.uci_moves, vec!["e4d5"]);
    assert_eq!(line.san_moves, vec!["exd5"]);
}

#[test]
fn score_is_turned_round_for_black_to_move() {
    let info = info_of("info depth 10 multipv 1 score cp 35 wdl 600 300 100 pv d5d4");
    let line = parse_uci_info(&info, AFTER_E4_D5, &strings(&["e4e5"])).unwrap();
    assert_eq!(line.score.value, ScoreValue::Cp(-35));
    assert_eq!(line.score.wdl, Some(Wdl { win: 100, draw: 300, loss: 600 }));
    assert_eq!(line.san_moves, vec!["d4"]);
    let mate = info_of("info depth 3 score mate 2 pv d5d4");
    let mated = parse_uci_info(&mate, AFTER_E4_D5, &strings(&["e4e5"])).unwrap();
    assert_eq!(mated.score.value, ScoreValue::Mate(-2));
}

#[test]
fn a_line_that_starts_from_an_empty_square_is_rejected() {
    let info = info_of("info depth 10 multipv 1 score cp 35 pv e2e4");
    assert_eq!(line_from_info(&info, AFTER_E4_D5), Err(Error::IllegalMove));
    assert_eq!(parse_uci_info(&info, AFTER_E4_D5, &strings(&["e4e5"])), Err(Error::IllegalMove));
}

#[test]
fn inverting_a_score_negates_and_swaps() {
    let score = Score { value: ScoreValue::Cp(35), wdl: Some(Wdl { win: 1, draw: 2, loss: 3 }) };
    let turned = invert_score(score);
    assert_eq!(turned.value, ScoreValue::Cp(-35));
    assert_eq!(turned.wdl, Some(Wdl { win: 3, draw: 2, loss: 1 }));
    assert_eq!(invert_score(turned), score);
    let least = Score { value: ScoreValue::Mate(i32::MIN), wdl: None };
    assert_eq!(invert_score(least).value, ScoreValue::Mate(i32::MAX));
}

#[test]
fn a_line_without_moves_is_no_line() {
    let info = info_of("info depth 10 nodes 100");
    assert_eq!(line_from_info(&info, START), Err(Error::NoMovesFound));
}

#[test]
fn nodes_keep_their_low_32_bits() {
    let info = info_of("info nodes 4294967301 nps 7 pv e2e4");
    let line = line_from_info(&info, START).unwrap();
    assert_eq!(line.nodes, 5);
    assert_eq!(line.nps, 7);
}

#[test]
fn a_line_in_a_position_that_cannot_be_reached() {
    let info = info_of("info pv e2e4");
    assert_eq!(parse_uci_info(&info, "nonsense", &vec![]), Err(Error::InvalidPosition));
    assert_eq!(parse_uci_info(&info, START, &strings(&["a1a8"])), Err(Error::IllegalMove));
}

#[test]
fn a_byte_stands_for_a_legal_move() {
    let first = decode_move(0, START).unwrap();
    let last = decode_move(19, START).unwrap();
    assert_ne!(first, last);
    assert!(replay(START, &vec![first]).is_ok());
    assert!(replay(START, &vec![last]).is_ok());
    assert_eq!(decode_move(20, START), None);
    assert_eq!(decode_move(0, "nonsense"), None);
}

const CROWDED: &str = "QQQQQQBk/Q6B/Q6Q/Q6Q/Q6Q/Q6Q/Q6Q/KQQQQQQQ w - - 0 1";

#[test]
fn a_board_full_of_queens_has_its_moves() {
    assert_eq!(replay(CROWDED, &vec![]), Ok(CROWDED.to_string()));
    let first = decode_move(0, CROWDED).unwrap();
    let last = decode_move(255, CROWDED).unwrap();
    assert_ne!(first, last);
    assert!(replay(CROWDED, &vec![first]).is_ok());
    assert!(replay(CROWDED, &vec![last]).is_ok());
    assert_eq!(
        pv_to_san(CROWDED, &strings(&["a7g7"])),
        Ok((strings(&["a7g7"]), strings(&["Qag7#"])))
    );
}
