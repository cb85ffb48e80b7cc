//! From what an engine says of a line to an analysis line of the position under study.

use vstd::prelude::*;
use crate::board::{black_to_move, is_black_to_move};
use crate::error::Error;
use crate::message::{InfoLine, InfoView};
use crate::replay::{lemma_sans_length, pv_to_san, replay, replayed, san_line};
use crate::text::views;
use crate::types::{invert_score, oriented, BestMoves, BestMovesView, ScoreValue};

verus! {

/// A count cut down to its lowest 32 bits.
pub open spec fn low32(n: u64) -> u32 {
    (n % 0x1_0000_0000) as u32
}

/// The analysis line that an engine's words make in a position.
///
/// Without a move there is no line. The score is the engine's where White is to
/// move, and turned round where Black is; the moves are written in both notations.
pub open spec fn line_of(info: InfoView, pos: Seq<char>) -> Result<BestMovesView, Error> {
    if !info.has_pv || info.pv.len() == 0 {
        Err(Error::NoMovesFound)
    } else {
        match san_line(pos, info.pv) {
            None => Err(Error::IllegalMove),
            Some(sans) => Ok(
                BestMovesView {
                    nodes: low32(info.nodes),
                    depth: info.depth,
                    score: oriented(info.score, black_to_move(pos)),
                    uci_moves: info.pv,
                    san_moves: sans,
                    multipv: info.multipv,
                    nps: info.nps,
                },
            ),
        }
    }
}

/// The analysis line that an engine's words make after `moves` from `fen`.
pub open spec fn parsed_info(info: InfoView, fen: Seq<char>, moves: Seq<Seq<char>>) -> Result<
    BestMovesView,
    Error,
> {
    match replayed(fen, moves) {
        Err(e) => Err(e),
        Ok(pos) => line_of(info, pos),
    }
}

/// Every analysis line has a move, and as many moves in one notation as in the other.
pub proof fn lemma_line_is_sound(info: InfoView, pos: Seq<char>)
    ensures
        match line_of(info, pos) {
            Ok(line) => line.wf(),
            Err(_) => true,
        },
{
    lemma_sans_length(pos, info.pv, 0, Seq::empty());
}


/// Score inversion: the score of an analysis line is the engine's where White is
/// to move. Where Black is to move it is the engine's turned round: centipawns
/// and moves to mate negated, the chances of win and loss exchanged.
pub proof fn lemma_score_orientation(info: InfoView, pos: Seq<char>)
    requires
        match info.score.value {
            ScoreValue::Cp(x) => x != i32::MIN,
            ScoreValue::Mate(x) => x != i32::MIN,
        },
    ensures
        match line_of(info, pos) {
            Ok(line) => if black_to_move(pos) {
                &&& match (info.score.value, line.score.value) {
                    (ScoreValue::Cp(raw), ScoreValue::Cp(shown)) => shown == -raw,
                    (ScoreValue::Mate(raw), ScoreValue::Mate(shown)) => shown == -raw,
                    _ => false,
                }
                &&& match (info.score.wdl, line.score.wdl) {
                    (Some(raw), Some(shown)) => shown.win == raw.loss && shown.draw == raw.draw
                        && shown.loss == raw.win,
                    (None, None) => true,
                    _ => false,
                }
            } else {
                line.score == info.score
            },
            Err(_) => true,
        },
{
}

/// Makes an analysis line of what the engine said, for the position `pos`.
///
/// Fails with `NoMovesFound` where the engine gave no move, and with
/// `IllegalMove` where one of its moves cannot be played.
pub fn line_from_info(info: &InfoLine, pos: &str) -> (r: Result<BestMoves, Error>)
    ensures
        match r {
            Ok(line) => line_of(info@, pos@) == Ok::<BestMovesView, Error>(line@) && line@.wf(),
            Err(e) => line_of(info@, pos@) == Err::<BestMovesView, Error>(e),
        },
{
    if !info.has_pv || info.pv.len() == 0 {
        return Err(Error::NoMovesFound);
    }
    match pv_to_san(pos, &info.pv) {
        Err(_) => Err(Error::IllegalMove),
        Ok(lines) => {
            let score = if is_black_to_move(pos) {
                invert_score(info.score)
            } else {
                info.score
            };
            let nodes: u32 = (info.nodes % 0x1_0000_0000) as u32;
            Ok(
                BestMoves {
                    nodes,
                    depth: info.depth,
                    score,
                    uci_moves: lines.0,
                    san_moves: lines.1,
                    multipv: info.multipv,
                    nps: info.nps,
                },
            )
        },
    }
}

/// Makes an analysis line of what the engine said about the position after `moves` from `fen`.
///
/// Fails with `InvalidPosition` or `IllegalMove` where the position cannot be
/// reached, with `NoMovesFound` where the engine gave no move, and with
/// `IllegalMove` where one of its moves cannot be played.
pub fn parse_uci_info(info: &InfoLine, fen: &str, moves: &Vec<String>) -> (r: Result<
    BestMoves,
    Error,
>)
    ensures
        match r {
            Ok(line) => parsed_info(info@, fen@, views(moves@)) == Ok::<BestMovesView, Error>(
                line@,
            ) && line@.wf(),
            Err(e) => parsed_info(info@, fen@, views(moves@)) == Err::<BestMovesView, Error>(e),
        },
{
    match replay(fen, moves) {
        Err(e) => Err(e),
        Ok(pos) => line_from_info(info, pos.as_str()),
    }
}

} // verus!
