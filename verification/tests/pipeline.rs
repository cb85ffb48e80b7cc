use pawn_appetit::error::Error;
use pawn_appetit::pipeline::{
    analysis_progress, analyze_game, annotate_novelties, build_analysis_positions,
    check_reference_db, ensure_multipv_option, novelty_query, turned, AnalysisOptions,
    AnalysisPosition, GameStep, MoveAnalysis,
};
use pawn_appetit::types::{BestMoves, EngineOption, EngineOptions, Score, ScoreValue};

const START: &str = "rnbqkbnr/pppppppp/8/8/8/8/PPPPPPPP/RNBQKBNR w KQkq - 0 1";

fn strings(items: &[&str]) -> Vec<String> {
    items.iter().map(|s| s.to_string()).collect()
}

fn game(moves: &[&str], reversed: bool) -> AnalysisOptions {
    AnalysisOptions {
        fen: START.to_string(),
        moves: strings(moves),
        annotate_novelties: false,
        reference_db: None,
        reversed,
    }
}

fn line(depth: u32) -> BestMoves {
    BestMoves {
        nodes: 1,
        depth,
        score: Score { value: ScoreValue::Cp(0), wdl: None },
        uci_moves: strings(&["e2e4"]),
        san_moves: strings(&["e4"]),
        multipv: 1,
        nps: 1,
    }
}

fn result() -> MoveAnalysis {
    MoveAnalysis { best: vec![line(3)], novelty: false, is_sacrifice: false }
}

#[test]
fn the_positions_of_a_game() {
    let positions = build_analysis_positions(&game(&["e2e4", "e7e5"], false)).unwrap();
    assert_eq!(
        positions,
        vec![
            AnalysisPosition { fen: START.to_string(), moves: vec![], is_sacrifice: false },
            AnalysisPosition {
                fen: "rnbqkbnr/pppppppp/8/8/4P3/8/PPPP1PPP/RNBQKBNR b KQkq - 0 1".to_string(),
                moves: strings(&["e2e4"]),
                is_sacrifice: false,
            },
            AnalysisPosition {
                fen: "rnbqkbnr/pppp1ppp/8/4p3/4P3/8/PPPP1PPP/RNBQKBNR w KQkq - 0 2".to_string(),
                moves: strings(&["e2e4", "e7e5"]),
                is_sacrifice: false,
            },
        ]
    );
}

#[test]
fn a_game_without_moves_has_one_position() {
    let positions = build_analysis_positions(&game(&[], false)).unwrap();
    assert_eq!(positions.len(), 1);
    assert_eq!(positions[0].fen, START);
}

#[test]
fn the_final_position_of_a_finished_game_is_left_out() {
    let positions =
        build_analysis_positions(&game(&["f2f3", "e7e5", "g2g4", "d8h4"], false)).unwrap();
    assert_eq!(positions.len(), 4);
    assert_eq!(positions[3].moves, strings(&["f2f3", "e7e5", "g2g4"]));
}

#[test]
fn a_sacrifice_is_marked_in_the_game() {
    let moves = ["e2e4", "e7e5", "g1f3", "g8f6", "f1b5", "a7a6", "b5c6"];
    let positions = build_analysis_positions(&game(&moves, false)).unwrap();
    assert_eq!(positions.len(), 8);
    assert!(positions[7].is_sacrifice);
    assert!(!positions[1].is_sacrifice);
    assert!(!positions[5].is_sacrifice);
}

#[test]
fn a_game_that_cannot_be_played_is_refused() {
    assert_eq!(build_analysis_positions(&game(&["e2e5"], false)), Err(Error::IllegalMove));
    let mut bad = game(&[], false);
    bad.fen = "nonsense".to_string();
    assert_eq!(build_analysis_positions(&bad), Err(Error::InvalidPosition));
}

#[test]
fn multipv_is_forced_to_two() {
    let mut none = vec![EngineOption::new("Hash", "64")];
    ensure_multipv_option(&mut none);
    assert_eq!(none, vec![EngineOption::new("Hash", "64"), EngineOption::new("MultiPV", "2")]);
    let mut some = vec![EngineOption::new("MultiPV", "5"), EngineOption::new("Hash", "64")];
    ensure_multipv_option(&mut some);
    assert_eq!(some, vec![EngineOption::new("MultiPV", "2"), EngineOption::new("Hash", "64")]);
    let mut empty: Vec<EngineOption> = vec![];
    ensure_multipv_option(&mut empty);
    assert_eq!(empty, vec![EngineOption::new("MultiPV", "2")]);
}

#[test]
fn progress_of_a_game() {
    assert_eq!(analysis_progress(0, 4), 0);
    assert_eq!(analysis_progress(1, 4), 2500);
    assert_eq!(analysis_progress(1, 3), 3333);
    assert_eq!(analysis_progress(3, 3), 10000);
    assert_eq!(analysis_progress(0, 0), 10000);
}

#[test]
fn a_list_is_turned_round() {
    assert_eq!(turned(vec![1, 2, 3]), vec![3, 2, 1]);
    assert_eq!(turned(Vec::<u8>::new()), Vec::<u8>::new());
    assert_eq!(turned(vec!["a"]), vec!["a"]);
}

#[test]
fn the_novelty_is_the_first_unknown_position() {
    let mut results = vec![result(), result(), result(), result()];
    annotate_novelties(&mut results, &vec![true, true, false, false]);
    let marks: Vec<bool> = results.iter().map(|r| r.novelty).collect();
    assert_eq!(marks, vec![false, false, true, false]);
    assert_eq!(results[2].best, vec![line(3)]);
}

#[test]
fn a_game_that_the_database_knows_has_no_novelty() {
    let mut results = vec![result(), result()];
    results[1].novelty = true;
    annotate_novelties(&mut results, &vec![true, true]);
    assert!(results.iter().all(|r| !r.novelty));
    let mut unasked = vec![result(), result()];
    annotate_novelties(&mut unasked, &vec![]);
    assert!(unasked.iter().all(|r| !r.novelty));
}

#[test]
fn the_database_is_asked_until_the_first_unknown_position() {
    assert_eq!(novelty_query(&vec![], 3), Some(0));
    assert_eq!(novelty_query(&vec![true], 3), Some(1));
    assert_eq!(novelty_query(&vec![true, true], 3), Some(2));
    assert_eq!(novelty_query(&vec![true, true, true], 3), None);
    assert_eq!(novelty_query(&vec![true, false], 3), None);
    assert_eq!(novelty_query(&vec![], 0), None);
}

#[test]
fn novelty_needs_a_reference_database() {
    let mut options = game(&["e2e4"], false);
    options.annotate_novelties = true;
    assert_eq!(check_reference_db(&options), Err(Error::MissingReferenceDatabase));
    assert_eq!(analyze_game(&options, &vec![]).err(), Some(Error::MissingReferenceDatabase));
    options.reference_db = Some("reference.db3".to_string());
    assert_eq!(check_reference_db(&options), Ok(()));
    options.annotate_novelties = false;
    options.reference_db = None;
    assert_eq!(check_reference_db(&options), Ok(()));
}

#[test]
fn a_game_is_analysed_position_by_position() {
    let mut analysis = analyze_game(&game(&["e2e4", "e7e5"], false), &vec![]).unwrap();
    let mut asked: Vec<(u32, Vec<String>)> = Vec::new();
    let mut depth = 0;
    loop {
        match analysis.step() {
            GameStep::Analyse { progress, options } => {
                assert_eq!(options.fen, START);
                assert_eq!(options.extra_options, vec![EngineOption::new("MultiPV", "2")]);
                asked.push((progress, options.moves));
                depth += 1;
                analysis.record(vec![line(depth)]);
            }
            GameStep::Finished => break,
        }
    }
    assert_eq!(
        asked,
        vec![(0, vec![]), (3333, strings(&["e2e4"])), (6666, strings(&["e2e4", "e7e5"]))]
    );
    let (results, fens) = analysis.finish();
    assert_eq!(results.len(), 3);
    assert_eq!(results[0].best, vec![line(1)]);
    assert_eq!(results[2].best, vec![line(3)]);
    assert_eq!(fens[0], START);
    assert_eq!(fens[2], "rnbqkbnr/pppp1ppp/8/4p3/4P3/8/PPPP1PPP/RNBQKBNR w KQkq - 0 2");
}

#[test]
fn a_game_analysed_backwards_comes_out_forwards() {
    let mut analysis = analyze_game(&game(&["e2e4", "e7e5"], true), &vec![]).unwrap();
    let mut asked: Vec<Vec<String>> = Vec::new();
    let mut depth = 0;
    while let GameStep::Analyse { options, .. } = analysis.step() {
        asked.push(options.moves);
        depth += 1;
        analysis.record(vec![line(depth)]);
    }
    assert_eq!(asked, vec![strings(&["e2e4", "e7e5"]), strings(&["e2e4"]), vec![]]);
    let (results, fens) = analysis.finish();
    assert_eq!(results[0].best, vec![line(3)]);
    assert_eq!(results[2].best, vec![line(1)]);
    assert_eq!(fens[0], START);
}

#[test]
fn a_position_that_is_given_up_has_no_result() {
    let mut analysis = analyze_game(&game(&["e2e4", "e7e5"], false), &vec![]).unwrap();
    analysis.record(vec![line(1)]);
    analysis.skip();
    analysis.record(vec![line(3)]);
    assert_eq!(analysis.step(), GameStep::Finished);
    analysis.record(vec![line(4)]);
    analysis.skip();
    let (results, fens) = analysis.finish();
    assert_eq!(results.len(), 2);
    assert_eq!(fens.len(), 2);
    assert_eq!(fens[1], "rnbqkbnr/pppp1ppp/8/4p3/4P3/8/PPPP1PPP/RNBQKBNR w KQkq - 0 2");
}

#[test]
fn the_request_of_a_position_carries_the_settings() {
    let settings = vec![EngineOption::new("Threads", "4"), EngineOption::new("MultiPV", "7")];
    let analysis = analyze_game(&game(&["e2e4"], false), &settings).unwrap();
    assert_eq!(
        analysis.step(),
        GameStep::Analyse {
            progress: 0,
            options: EngineOptions {
                fen: START.to_string(),
                moves: vec![],
                extra_options: vec![
                    EngineOption::new("Threads", "4"),
                    EngineOption::new("MultiPV", "2"),
                ],
            },
        }
    );
}

#[test]
fn a_game_from_a_board_full_of_queens() {
    let mut crowded = game(&[], false);
    crowded.fen = "QQQQQQBk/Q6B/Q6Q/Q6Q/Q6Q/Q6Q/Q6Q/KQQQQQQQ w - - 0 1".to_string();
    let positions = build_analysis_positions(&crowded).unwrap();
    assert_eq!(positions.len(), 1);
    assert_eq!(positions[0].fen, crowded.fen);
    assert!(positions[0].moves.is_empty());
    crowded.moves = strings(&["a7g7"]);
    assert_eq!(build_analysis_positions(&crowded).unwrap().len(), 1);
    crowded.moves = strings(&["a7b7"]);
    assert_eq!(build_analysis_positions(&crowded).unwrap().len(), 1);
    crowded.moves = strings(&["a7a8"]);
    assert_eq!(build_analysis_positions(&crowded), Err(Error::IllegalMove));
    crowded.moves = vec![];
    assert!(analyze_game(&crowded, &vec![]).is_ok());
}

#[test]
fn the_reports_of_a_game() {
    let mut analysis = analyze_game(&game(&["e2e4", "e7e5"], false), &vec![]).unwrap();
    let mut seen: Vec<(u32, bool)> = Vec::new();
    while analysis.step() != GameStep::Finished {
        let report = analysis.report("game-1");
        assert_eq!(report.id, "game-1");
        seen.push((report.progress, report.finished));
        if seen.len() == 2 {
            analysis.skip();
        } else {
            analysis.record(vec![line(1)]);
        }
    }
    let last = analysis.report("game-1");
    seen.push((last.progress, last.finished));
    assert_eq!(seen, vec![(0, false), (3333, false), (6666, false), (10000, true)]);
}
