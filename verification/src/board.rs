//! Chess positions, as the rules library sees them.
//!
//! A position is carried as its text in Forsyth-Edwards Notation. Everything that
//! only the rules of chess can tell of a position is asked of the `shakmaty` crate,
//! through the functions of this module, and is known to the rest of the library
//! by name only.
//!
//! The rules library collects the moves of a position in a list of fixed room:
//! 512 moves when it is built with its variants, as it is for this library, and a
//! move too many would stop the program. No position needs that many, whatever
//! material it holds. Into one square at most eight queens, rooks, bishops and
//! kings can move, the nearest on each of the eight lines, and at most eight
//! knights; a piece has 27 moves at most and a knight eight, and every piece of
//! the mover takes a square away. At most eight pawns stand before promotion
//! with twelve moves each; any other pawn has four. Castling and capturing in
//! passing add two each. However the pieces are chosen, that stays below 490.

use vstd::prelude::*;
use shakmaty::fen::Fen;
use shakmaty::san::SanPlus;
use shakmaty::uci::UciMove;
use shakmaty::{CastlingMode, Chess, Color, EnPassantMode, Position};

verus! {

/// The position that a text sets up, written out again; `None` where the text sets up none.
pub uninterp spec fn board_text(fen: Seq<char>) -> Option<Seq<char>>;

/// A move played in a position: how the move is written in algebraic notation,
/// and the position after it. `None` where the move cannot be played.
pub uninterp spec fn played(fen: Seq<char>, mv: Seq<char>) -> Option<(Seq<char>, Seq<char>)>;

/// Whether it is Black's turn in a position.
pub uninterp spec fn black_to_move(fen: Seq<char>) -> bool;

/// Whether the game has ended in a position.
pub uninterp spec fn game_over(fen: Seq<char>) -> bool;

/// Whether the side to move is mated in a position.
pub uninterp spec fn checkmate(fen: Seq<char>) -> bool;

/// How many pieces of each kind stand on the board: White's pawns, knights,
/// bishops, rooks and queens, then Black's.
pub uninterp spec fn material(fen: Seq<char>) -> Seq<u8>;

/// The legal moves of a position, in the order in which the rules library lists them:
/// each with its coordinate notation, the kind of piece it captures and the position after it.
pub uninterp spec fn legal_moves(fen: Seq<char>) -> Seq<(Seq<char>, u8, Seq<char>)>;

/// No piece is captured.
pub const NO_CAPTURE: u8 = 0;

pub const PAWN: u8 = 1;

pub const KNIGHT: u8 = 2;

pub const BISHOP: u8 = 3;

pub const ROOK: u8 = 4;

pub const QUEEN: u8 = 5;

pub const KING: u8 = 6;

/// One legal move of a position.
#[derive(Debug, Clone, PartialEq, Eq)]
pub struct LegalMove {
    /// The move in coordinate notation; castling is written as king takes rook.
    pub uci: String,
    /// The kind of piece that the move captures, `NO_CAPTURE` where it captures none.
    pub capture: u8,
    /// The position after the move.
    pub after: String,
}

impl View for LegalMove {
    type V = (Seq<char>, u8, Seq<char>);

    open spec fn view(&self) -> (Seq<char>, u8, Seq<char>) {
        (self.uci@, self.capture, self.after@)
    }
}

/// The views of a list of moves.
pub open spec fn move_views(v: Seq<LegalMove>) -> Seq<(Seq<char>, u8, Seq<char>)> {
    Seq::new(v.len(), |i: int| v[i]@)
}

/// Calls `Fen::from_ascii`, `Fen::into_position` in Chess960 castling mode and, where that
/// fails, `PositionError::ignore_too_much_material`; then writes the position with
/// `Fen::from_position`. The result is what this library calls `board_text`.
#[verifier::external_body]
pub(crate) fn set_up(fen: &str) -> (r: Option<String>)
    ensures
        match r {
            Some(t) => board_text(fen@) == Some(t@),
            None => board_text(fen@).is_none(),
        },
{
    let parsed: Fen = fen.parse().ok()?;
    let pos: Chess = parsed.into_position(CastlingMode::Chess960).or_else(
        |e| e.ignore_too_much_material(),
    ).ok()?;
    Some(Fen::from_position(pos, EnPassantMode::Legal).to_string())
}

/// Sets the position up as `set_up` does, reads the move with `UciMove::from_ascii`,
/// makes it a legal move with `UciMove::to_move` and plays it with
/// `SanPlus::from_move_and_play_unchecked`, which lists the moves of the position
/// after the move to tell check from mate. The result is what this library calls `played`.
#[verifier::external_body]
pub(crate) fn play(fen: &str, mv: &str) -> (r: Option<(String, String)>)
    ensures
        match r {
            Some(p) => played(fen@, mv@) == Some((p.0@, p.1@)),
            None => played(fen@, mv@).is_none(),
        },
{
    let parsed: Fen = fen.parse().ok()?;
    let mut pos: Chess = parsed.into_position(CastlingMode::Chess960).or_else(
        |e| e.ignore_too_much_material(),
    ).ok()?;
    let m = UciMove::from_ascii(mv.as_bytes()).ok()?.to_move(&pos).ok()?;
    let san = SanPlus::from_move_and_play_unchecked(&mut pos, &m).to_string();
    Some((san, Fen::from_position(pos, EnPassantMode::Legal).to_string()))
}

/// Sets the position up as `set_up` does and asks `Position::turn`; `false` where
/// the text sets up no position.
#[verifier::external_body]
pub(crate) fn is_black_to_move(fen: &str) -> (r: bool)
    ensures
        r == black_to_move(fen@),
{
    let pos: Option<Chess> = fen.parse::<Fen>().ok().and_then(
        |f| f.into_position(CastlingMode::Chess960).or_else(|e| e.ignore_too_much_material()).ok(),
    );
    pos.map_or(false, |p| p.turn() == Color::Black)
}

/// Sets the position up as `set_up` does and asks `Position::is_game_over`; `false`
/// where the text sets up no position. The rules library lists the moves of the
/// side to move on the way; the list holds them (see the head of this file).
#[verifier::external_body]
pub(crate) fn is_game_over(fen: &str) -> (r: bool)
    ensures
        r == game_over(fen@),
{
    let pos: Option<Chess> = fen.parse::<Fen>().ok().and_then(
        |f| f.into_position(CastlingMode::Chess960).or_else(|e| e.ignore_too_much_material()).ok(),
    );
    pos.map_or(false, |p| p.is_game_over())
}

/// Sets the position up as `set_up` does and asks `Position::is_checkmate`; `false`
/// where the text sets up no position.
#[verifier::external_body]
pub(crate) fn is_checkmate(fen: &str) -> (r: bool)
    ensures
        r == checkmate(fen@),
{
    let pos: Option<Chess> = fen.parse::<Fen>().ok().and_then(
        |f| f.into_position(CastlingMode::Chess960).or_else(|e| e.ignore_too_much_material()).ok(),
    );
    pos.map_or(false, |p| p.is_checkmate())
}

/// Sets the position up as `set_up` does and asks `Board::material`: ten counts,
/// White's pawns, knights, bishops, rooks and queens, then Black's. No count at all
/// where the text sets up no position.
#[verifier::external_body]
pub(crate) fn count_pieces(fen: &str) -> (r: Vec<u8>)
    ensures
        r@ == material(fen@),
{
    let pos: Option<Chess> = fen.parse::<Fen>().ok().and_then(
        |f| f.into_position(CastlingMode::Chess960).or_else(|e| e.ignore_too_much_material()).ok(),
    );
    pos.map_or(Vec::new(), |p| {
        let m = p.board().material();
        let (w, b) = (m.white, m.black);
        vec![w.pawn, w.knight, w.bishop, w.rook, w.queen, b.pawn, b.knight, b.bishop, b.rook, b.queen]
    })
}

/// Sets the position up as `set_up` does and lists `Position::legal_moves`: each move
/// written with `UciMove::from_chess960`, with the role that `Move::capture` gives as
/// the number that `Role` has for it (1 for a pawn up to 6 for a king, 0 for none),
/// and the position after `Position::play_unchecked`. No move where the text sets
/// up no position. The list in which the rules library collects the moves holds
/// them (see the head of this file).
#[verifier::external_body]
pub(crate) fn list_moves(fen: &str) -> (r: Vec<LegalMove>)
    ensures
        move_views(r@) == legal_moves(fen@),
{
    let pos: Option<Chess> = fen.parse::<Fen>().ok().and_then(
        |f| f.into_position(CastlingMode::Chess960).or_else(|e| e.ignore_too_much_material()).ok(),
    );
    pos.map_or(Vec::new(), |p| p.legal_moves().iter().map(|m| {
        let mut next = p.clone();
        next.play_unchecked(m);
        LegalMove {
            uci: UciMove::from_chess960(m).to_string(),
            capture: m.capture().map_or(0, |role| role as u8),
            after: Fen::from_position(next, EnPassantMode::Legal).to_string(),
        }
    }).collect())
}

} // verus!
