//! Positions reached by playing moves: the position of a game after its moves,
//! and a line of play written in algebraic notation.

use vstd::prelude::*;
use crate::board::{
    board_text, legal_moves, list_moves, move_views, play, played, set_up, LegalMove,
};
use crate::error::Error;
use crate::text::{copy_strings, views};

verus! {

/// The position after the moves of `moves` from index `i` on are played from `pos`;
/// `None` where one of them cannot be played.
pub open spec fn replay_from(pos: Seq<char>, moves: Seq<Seq<char>>, i: int) -> Option<Seq<char>>
    decreases moves.len() - i,
{
    if i < 0 || i >= moves.len() {
        Some(pos)
    } else {
        match played(pos, moves[i]) {
            Some(step) => replay_from(step.1, moves, i + 1),
            None => None,
        }
    }
}

/// The position after `moves` are played from the position that `fen` sets up.
pub open spec fn replayed(fen: Seq<char>, moves: Seq<Seq<char>>) -> Result<Seq<char>, Error> {
    match board_text(fen) {
        None => Err(Error::InvalidPosition),
        Some(start) => match replay_from(start, moves, 0) {
            Some(pos) => Ok(pos),
            None => Err(Error::IllegalMove),
        },
    }
}

/// Sets up the position of `fen` and plays `moves` from it.
///
/// Fails with `InvalidPosition` where `fen` sets up no position, and with
/// `IllegalMove` at the first move that cannot be played.
pub fn replay(fen: &str, moves: &Vec<String>) -> (r: Result<String, Error>)
    ensures
        match r {
            Ok(pos) => replayed(fen@, views(moves@)) == Ok::<Seq<char>, Error>(pos@),
            Err(e) => replayed(fen@, views(moves@)) == Err::<Seq<char>, Error>(e),
        },
{
    let mut pos: String = match set_up(fen) {
        Some(start) => start,
        None => {
            return Err(Error::InvalidPosition);
        },
    };
    let ghost start = pos@;
    let mut i: usize = 0;
    while i < moves.len()
        invariant
            i <= moves@.len(),
            board_text(fen@) == Some(start),
            replay_from(pos@, views(moves@), i as int) == replay_from(start, views(moves@), 0),
        decreases moves@.len() - i,
    {
        assert(views(moves@)[i as int] == moves@[i as int]@);
        match play(pos.as_str(), moves[i].as_str()) {
            Some(step) => {
                pos = step.1;
            },
            None => {
                return Err(Error::IllegalMove);
            },
        }
        i = i + 1;
    }
    Ok(pos)
}

/// The moves of `pv` from index `i` on, played from `pos` and written in algebraic
/// notation after `acc`; `None` where one of them cannot be played.
pub open spec fn sans_from(pos: Seq<char>, pv: Seq<Seq<char>>, i: int, acc: Seq<Seq<char>>) -> Option<
    Seq<Seq<char>>,
>
    decreases pv.len() - i,
{
    if i < 0 || i >= pv.len() {
        Some(acc)
    } else {
        match played(pos, pv[i]) {
            Some(step) => sans_from(step.1, pv, i + 1, acc.push(step.0)),
            None => None,
        }
    }
}

/// A line of play from `pos`, written in algebraic notation.
pub open spec fn san_line(pos: Seq<char>, pv: Seq<Seq<char>>) -> Option<Seq<Seq<char>>> {
    sans_from(pos, pv, 0, Seq::empty())
}

/// A line written in algebraic notation has as many moves as the line it writes.
pub proof fn lemma_sans_length(pos: Seq<char>, pv: Seq<Seq<char>>, i: int, acc: Seq<Seq<char>>)
    requires
        0 <= i <= pv.len(),
        acc.len() == i,
    ensures
        match sans_from(pos, pv, i, acc) {
            Some(s) => s.len() == pv.len(),
            None => true,
        },
    decreases pv.len() - i,
{
    if i < pv.len() {
        match played(pos, pv[i]) {
            Some(step) => {
                lemma_sans_length(step.1, pv, i + 1, acc.push(step.0));
            },
            None => {},
        }
    }
}

/// Plays a line from a position and writes it in both notations: the moves as they
/// were given, and the same moves in algebraic notation, with the signs for check and mate.
///
/// Fails with `IllegalMove` where a move of the line cannot be played.
pub fn pv_to_san(pos: &str, pv: &Vec<String>) -> (r: Result<(Vec<String>, Vec<String>), Error>)
    ensures
        match r {
            Ok(lines) => {
                &&& san_line(pos@, views(pv@)) == Some(views(lines.1@))
                &&& views(lines.0@) == views(pv@)
                &&& lines.0@.len() == pv@.len()
                &&& lines.1@.len() == pv@.len()
            },
            Err(e) => e == Error::IllegalMove && san_line(pos@, views(pv@)).is_none(),
        },
{
    let mut cur: String = pos.to_owned();
    let mut sans: Vec<String> = Vec::new();
    let mut i: usize = 0;
    assert(views(sans@) =~= Seq::<Seq<char>>::empty());
    while i < pv.len()
        invariant
            i <= pv@.len(),
            sans@.len() == i,
            sans_from(cur@, views(pv@), i as int, views(sans@)) == san_line(pos@, views(pv@)),
        decreases pv@.len() - i,
    {
        let ghost before = views(sans@);
        assert(views(pv@)[i as int] == pv@[i as int]@);
        match play(cur.as_str(), pv[i].as_str()) {
            Some(step) => {
                let (san, next) = step;
                sans.push(san);
                cur = next;
                assert(views(sans@) =~= before.push(san@));
            },
            None => {
                return Err(Error::IllegalMove);
            },
        }
        i = i + 1;
    }
    Ok((copy_strings(pv), sans))
}


/// The move that a byte stands for in a position: the legal move at that place
/// in the list of the position's legal moves, in coordinate notation.
pub open spec fn decoded(byte: u8, pos: Seq<char>) -> Option<Seq<char>> {
    if byte < legal_moves(pos).len() {
        Some(legal_moves(pos)[byte as int].0)
    } else {
        None
    }
}

/// Finds the move that a byte stands for in a position.
pub fn decode_move(byte: u8, pos: &str) -> (r: Option<String>)
    ensures
        match r {
            Some(m) => decoded(byte, pos@) == Some(m@),
            None => decoded(byte, pos@).is_none(),
        },
{
    let listed: Vec<LegalMove> = list_moves(pos);
    let at: usize = byte as usize;
    if at < listed.len() {
        assert(move_views(listed@)[at as int] == listed@[at as int]@);
        Some(listed[at].uci.clone())
    } else {
        None
    }
}

} // verus!
