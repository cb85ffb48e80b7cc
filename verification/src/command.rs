//! The commands that the session core sends to an engine, each ending in a line feed.

use vstd::prelude::*;
use vstd::string::*;
use crate::text::{append_decimal, decimal, join_strings, joined, views};
use crate::types::GoMode;

verus! {

/// What is taken off both clocks before they are handed to the engine, in milliseconds.
pub const CLOCK_MARGIN_MS: u32 = 100;

/// A clock less the safety margin, never below zero.
pub open spec fn clock_left(ms: u32) -> nat {
    if ms >= CLOCK_MARGIN_MS {
        (ms - CLOCK_MARGIN_MS) as nat
    } else {
        0
    }
}

/// The text of the command that sets one engine option.
pub open spec fn setoption_text(name: Seq<char>, value: Seq<char>) -> Seq<char> {
    "setoption name "@ + name + " value "@ + value + "\n"@
}

/// The text of the command that hands the engine its position.
pub open spec fn position_text(fen: Seq<char>, moves: Seq<Seq<char>>) -> Seq<char> {
    if moves.len() == 0 {
        "position fen "@ + fen + "\n"@
    } else {
        "position fen "@ + fen + " moves "@ + joined(moves) + "\n"@
    }
}

/// The text of the command that starts the search.
pub open spec fn go_text(mode: GoMode) -> Seq<char> {
    match mode {
        GoMode::Depth(d) => "go depth "@ + decimal(d as nat) + "\n"@,
        GoMode::Time(t) => "go movetime "@ + decimal(t as nat) + "\n"@,
        GoMode::Nodes(n) => "go nodes "@ + decimal(n as nat) + "\n"@,
        GoMode::PlayersTime(p) => "go wtime "@ + decimal(clock_left(p.white)) + " btime "@
            + decimal(clock_left(p.black)) + " winc "@ + decimal(p.winc as nat) + " binc "@
            + decimal(p.binc as nat) + "\n"@,
        GoMode::Infinite => "go infinite\n"@,
    }
}

/// The command that opens the dialogue.
pub fn uci_command() -> (r: String)
    ensures
        r@ == "uci\n"@,
{
    String::from_str("uci\n")
}

/// The command that asks whether the engine is ready.
pub fn isready_command() -> (r: String)
    ensures
        r@ == "isready\n"@,
{
    String::from_str("isready\n")
}

/// The command that ends the search.
pub fn stop_command() -> (r: String)
    ensures
        r@ == "stop\n"@,
{
    String::from_str("stop\n")
}

/// The command that ends the engine.
pub fn quit_command() -> (r: String)
    ensures
        r@ == "quit\n"@,
{
    String::from_str("quit\n")
}

/// Writes the command that sets one engine option.
pub fn setoption_command(name: &str, value: &str) -> (r: String)
    ensures
        r@ == setoption_text(name@, value@),
{
    let mut r: String = String::from_str("setoption name ");
    r.append(name);
    r.append(" value ");
    r.append(value);
    r.append("\n");
    r
}

/// Writes the command that hands the engine its position.
pub fn position_command(fen: &str, moves: &Vec<String>) -> (r: String)
    ensures
        r@ == position_text(fen@, views(moves@)),
{
    let mut r: String = String::from_str("position fen ");
    r.append(fen);
    if moves.len() > 0 {
        r.append(" moves ");
        let all: String = join_strings(moves);
        r.append(all.as_str());
    }
    r.append("\n");
    r
}

fn clock_with_margin(ms: u32) -> (r: u64)
    ensures
        r == clock_left(ms),
{
    if ms >= CLOCK_MARGIN_MS {
        (ms - CLOCK_MARGIN_MS) as u64
    } else {
        0
    }
}

/// Writes the command that starts the search. The mode is handed on as it is;
/// only the two clocks are reduced by the safety margin.
pub fn format_go_command(mode: &GoMode) -> (r: String)
    ensures
        r@ == go_text(*mode),
{
    match mode {
        GoMode::Depth(d) => {
            let mut r: String = String::from_str("go depth ");
            append_decimal(&mut r, *d as u64);
            r.append("\n");
            r
        },
        GoMode::Time(t) => {
            let mut r: String = String::from_str("go movetime ");
            append_decimal(&mut r, *t as u64);
            r.append("\n");
            r
        },
        GoMode::Nodes(n) => {
            let mut r: String = String::from_str("go nodes ");
            append_decimal(&mut r, *n);
            r.append("\n");
            r
        },
        GoMode::PlayersTime(p) => {
            let mut r: String = String::from_str("go wtime ");
            append_decimal(&mut r, clock_with_margin(p.white));
            r.append(" btime ");
            append_decimal(&mut r, clock_with_margin(p.black));
            r.append(" winc ");
            append_decimal(&mut r, p.winc as u64);
            r.append(" binc ");
            append_decimal(&mut r, p.binc as u64);
            r.append("\n");
            r
        },
        GoMode::Infinite => String::from_str("go infinite\n"),
    }
}

} // verus!
