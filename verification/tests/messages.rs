use pawn_appetit::message::{move_shaped, parse_line, InfoLine, Message};
use pawn_appetit::text::{read_i32, read_u16, read_u32, read_u64, split_tokens};
use pawn_appetit::types::{Score, ScoreValue, Wdl};

fn info_of(line: &str) -> InfoLine {
    match parse_line(line) {
        Message::Info(info) => info,
        other => panic!("not an info line: {:?}", other),
    }
}

#[test]
fn tokens_are_cut_at_white_space() {
    assert_eq!(split_tokens("  info   depth\t10 \r"), vec!["info", "depth", "10"]);
    assert_eq!(split_tokens(""), Vec::<String>::new());
    assert_eq!(split_tokens(" \t "), Vec::<String>::new());
    assert_eq!(split_tokens("uciok"), vec!["uciok"]);
}

#[test]
fn numbers_are_read_within_their_range() {
    assert_eq!(read_u64("0"), Some(0));
    assert_eq!(read_u64("18446744073709551615"), Some(u64::MAX));
    assert_eq!(read_u64("18446744073709551616"), None);
    assert_eq!(read_u64("99999999999999999999999"), None);
    assert_eq!(read_u64(""), None);
    assert_eq!(read_u64("12a"), None);
    assert_eq!(read_u64("-1"), None);
    assert_eq!(read_u32("4294967295"), Some(u32::MAX));
    assert_eq!(read_u32("4294967296"), None);
    assert_eq!(read_u16("65535"), Some(u16::MAX));
    assert_eq!(read_u16("65536"), None);
    assert_eq!(read_u16("007"), Some(7));
}

#[test]
fn integers_are_read_with_their_sign() {
    assert_eq!(read_i32("35"), Some(35));
    assert_eq!(read_i32("-35"), Some(-35));
    assert_eq!(read_i32("-2147483648"), Some(i32::MIN));
    assert_eq!(read_i32("2147483647"), Some(i32::MAX));
    assert_eq!(read_i32("2147483648"), None);
    assert_eq!(read_i32("-2147483649"), None);
    assert_eq!(read_i32("-"), None);
    assert_eq!(read_i32("+5"), None);
    assert_eq!(read_i32("--5"), None);
}

#[test]
fn moves_are_told_by_their_shape() {
    assert!(move_shaped("e2e4"));
    assert!(move_shaped("e7e8q"));
    assert!(move_shaped("a1h8"));
    assert!(!move_shaped("e2e9"));
    assert!(!move_shaped("i2e4"));
    assert!(!move_shaped("e2e4k"));
    assert!(!move_shaped("e2e"));
    assert!(!move_shaped("e2e4qq"));
    assert!(!move_shaped("0000"));
    assert!(!move_shaped(""));
}

#[test]
fn simple_messages_are_recognised() {
    assert_eq!(parse_line("uciok"), Message::UciOk);
    assert_eq!(parse_line("  readyok  "), Message::ReadyOk);
    assert_eq!(parse_line(""), Message::Unknown);
    assert_eq!(parse_line("Stockfish 16 by the Stockfish developers"), Message::Unknown);
    assert_eq!(parse_line("id author Somebody"), Message::Unknown);
    assert_eq!(parse_line("id name"), Message::Unknown);
    assert_eq!(parse_line("bestmove"), Message::Unknown);
}

#[test]
fn id_name_keeps_the_whole_name() {
    assert_eq!(parse_line("id name Stockfish 16.1"), Message::IdName("Stockfish 16.1".to_string()));
    assert_eq!(parse_line("id   name   My   Engine"), Message::IdName("My Engine".to_string()));
}

#[test]
fn option_keeps_its_description() {
    assert_eq!(
        parse_line("option name Hash type spin default 16 min 1 max 33554432"),
        Message::OptionConfig("name Hash type spin default 16 min 1 max 33554432".to_string())
    );
}

#[test]
fn bestmove_with_and_without_ponder() {
    assert_eq!(
        parse_line("bestmove e2e4 ponder e7e5"),
        Message::BestMove { best: "e2e4".to_string(), ponder: Some("e7e5".to_string()) }
    );
    assert_eq!(
        parse_line("bestmove e2e4"),
        Message::BestMove { best: "e2e4".to_string(), ponder: None }
    );
    assert_eq!(
        parse_line("bestmove (none)"),
        Message::BestMove { best: "(none)".to_string(), ponder: None }
    );
}

#[test]
fn info_line_with_all_attributes() {
    let info = info_of(
        "info depth 10 seldepth 14 multipv 2 score cp -35 wdl 300 500 200 nodes 123456 nps 1000000 hashfull 3 tbhits 0 time 12 pv e2e4 e7e5 g1f3",
    );
    assert_eq!(info.depth, 10);
    assert_eq!(info.multipv, 2);
    assert_eq!(
        info.score,
        Score { value: ScoreValue::Cp(-35), wdl: Some(Wdl { win: 300, draw: 500, loss: 200 }) }
    );
    assert_eq!(info.nodes, 123456);
    assert_eq!(info.nps, 1000000);
    assert!(info.has_pv);
    assert_eq!(info.pv, vec!["e2e4", "e7e5", "g1f3"]);
}

#[test]
fn info_line_defaults() {
    let info = info_of("info");
    assert_eq!(info.depth, 0);
    assert_eq!(info.multipv, 1);
    assert_eq!(info.score, Score { value: ScoreValue::Cp(0), wdl: None });
    assert_eq!(info.nodes, 0);
    assert_eq!(info.nps, 0);
    assert!(!info.has_pv);
    assert!(info.pv.is_empty());
}

#[test]
fn info_mate_score_and_bounds() {
    let info = info_of("info depth 20 score mate -3 pv h7h8");
    assert_eq!(info.score, Score { value: ScoreValue::Mate(-3), wdl: None });
    let bounded = info_of("info depth 20 score cp 12 lowerbound nodes 5 pv e2e4");
    assert_eq!(bounded.score, Score { value: ScoreValue::Cp(12), wdl: None });
    assert_eq!(bounded.nodes, 5);
    assert_eq!(bounded.pv, vec!["e2e4"]);
}

#[test]
fn info_values_out_of_range_are_passed_over() {
    let info = info_of("info depth 4294967296 multipv 70000 nodes x nps pv e2e4");
    assert_eq!(info.depth, 0);
    assert_eq!(info.multipv, 1);
    assert_eq!(info.nodes, 0);
    assert_eq!(info.nps, 0);
    assert_eq!(info.pv, vec!["e2e4"]);
    let deep = info_of("info depth 300 pv e2e4");
    assert_eq!(deep.depth, 300);
}

#[test]
fn info_string_ends_the_line() {
    let info = info_of("info depth 3 string depth 9 pv e2e4");
    assert_eq!(info.depth, 3);
    assert!(!info.has_pv);
}

#[test]
fn info_pv_stops_at_what_is_no_move() {
    let info = info_of("info pv e2e4 e7e5 depth 7");
    assert_eq!(info.pv, vec!["e2e4", "e7e5"]);
    assert_eq!(info.depth, 7);
    let none = info_of("info depth 5 pv");
    assert!(!none.has_pv);
    let later = info_of("info pv e2e4 multipv 3 pv d2d4 d7d5");
    assert_eq!(later.pv, vec!["d2d4", "d7d5"]);
    assert_eq!(later.multipv, 3);
}

#[test]
fn info_incomplete_wdl_is_no_wdl() {
    let info = info_of("info score cp 10 wdl 1 2 pv e2e4");
    assert_eq!(info.score, Score { value: ScoreValue::Cp(10), wdl: None });
    assert_eq!(info.pv, vec!["e2e4"]);
}
