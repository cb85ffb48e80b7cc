use pawn_appetit::command::{format_go_command, position_command, setoption_command};
use pawn_appetit::types::{GoMode, PlayersTime};

#[test]
fn go_depth_is_written_with_its_number() {
    assert_eq!(format_go_command(&GoMode::Depth(20)), "go depth 20\n");
}

#[test]
fn go_movetime_nodes_and_infinite() {
    assert_eq!(format_go_command(&GoMode::Time(1500)), "go movetime 1500\n");
    assert_eq!(format_go_command(&GoMode::Nodes(1_000_000)), "go nodes 1000000\n");
    assert_eq!(format_go_command(&GoMode::Infinite), "go infinite\n");
    assert_eq!(format_go_command(&GoMode::Depth(0)), "go depth 0\n");
}

#[test]
fn go_with_clocks_takes_the_margin_off() {
    let clocks = PlayersTime { white: 60_000, black: 50, winc: 1000, binc: 0 };
    assert_eq!(
        format_go_command(&GoMode::PlayersTime(clocks)),
        "go wtime 59900 btime 0 winc 1000 binc 0\n"
    );
}

#[test]
fn setoption_names_the_option_and_its_value() {
    assert_eq!(setoption_command("MultiPV", "3"), "setoption name MultiPV value 3\n");
}

#[test]
fn position_with_and_without_moves() {
    let fen = "rnbqkbnr/pppppppp/8/8/8/8/PPPPPPPP/RNBQKBNR w KQkq - 0 1";
    assert_eq!(position_command(fen, &vec![]), format!("position fen {}\n", fen));
    let moves = vec!["e2e4".to_string(), "e7e5".to_string()];
    assert_eq!(position_command(fen, &moves), format!("position fen {} moves e2e4 e7e5\n", fen));
}
