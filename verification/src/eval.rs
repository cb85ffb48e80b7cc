//! A rough evaluation of positions: material, and the captures that follow.
//! It serves one purpose, to tell whether a move gives material away.

use vstd::prelude::*;
use crate::board::{
    black_to_move, checkmate, count_pieces, game_over, is_black_to_move, is_checkmate,
    is_game_over, legal_moves, list_moves, material, move_views, LegalMove, BISHOP, KNIGHT,
    NO_CAPTURE, PAWN, QUEEN, ROOK,
};
use crate::text::views;

verus! {

/// What a mated side's position is worth.
pub const MATED: i32 = -10000;

/// How many captures in a row are followed at most: more than a board has pieces to take.
pub const MAX_CAPTURES: u32 = 64;

/// What is added to a position's worth before a move counts as a sacrifice: one pawn.
pub const SACRIFICE_MARGIN: i64 = 100;

/// The worth of a piece in hundredths of a pawn; the king has none.
pub open spec fn value_of(role: u8) -> int {
    if role == PAWN {
        100
    } else if role == KNIGHT {
        300
    } else if role == BISHOP {
        300
    } else if role == ROOK {
        500
    } else if role == QUEEN {
        900
    } else {
        0
    }
}

/// The worth of a piece in hundredths of a pawn.
pub fn piece_value(role: u8) -> (r: i32)
    ensures
        r == value_of(role),
{
    if role == PAWN {
        100
    } else if role == KNIGHT {
        300
    } else if role == BISHOP {
        300
    } else if role == ROOK {
        500
    } else if role == QUEEN {
        900
    } else {
        0
    }
}

/// The worth of the five counts of `m` from index `from` on: pawns, knights,
/// bishops, rooks and queens.
pub open spec fn side_worth(m: Seq<u8>, from: int) -> int {
    m[from] * 100 + m[from + 1] * 300 + m[from + 2] * 300 + m[from + 3] * 500 + m[from + 4] * 900
}

/// The material of a position from the point of view of the side to move: its
/// own pieces less the other side's, and `MATED` where it is mated.
pub open spec fn material_balance(fen: Seq<char>) -> int {
    if checkmate(fen) {
        MATED as int
    } else if material(fen).len() != 10 {
        0
    } else if black_to_move(fen) {
        side_worth(material(fen), 5) - side_worth(material(fen), 0)
    } else {
        side_worth(material(fen), 0) - side_worth(material(fen), 5)
    }
}

/// No position is worth more than all the pieces that a count can hold.
pub const MATERIAL_LIMIT: i32 = 535500;

pub proof fn lemma_balance_bounds(fen: Seq<char>)
    ensures
        -MATERIAL_LIMIT <= material_balance(fen) <= MATERIAL_LIMIT,
{
}

fn worth(m: &Vec<u8>, from: usize) -> (r: i32)
    requires
        from <= 5,
        from + 5 <= m@.len(),
    ensures
        r == side_worth(m@, from as int),
        0 <= r <= MATERIAL_LIMIT,
{
    (m[from] as i32) * 100 + (m[from + 1] as i32) * 300 + (m[from + 2] as i32) * 300 + (m[from
        + 3] as i32) * 500 + (m[from + 4] as i32) * 900
}

/// Counts the material of a position from the point of view of the side to move.
pub fn count_material(position: &str) -> (r: i32)
    ensures
        r == material_balance(position@),
        -MATERIAL_LIMIT <= r <= MATERIAL_LIMIT,
{
    if is_checkmate(position) {
        return MATED;
    }
    let m: Vec<u8> = count_pieces(position);
    if m.len() != 10 {
        return 0;
    }
    let white: i32 = worth(&m, 0);
    let black: i32 = worth(&m, 5);
    if is_black_to_move(position) {
        black - white
    } else {
        white - black
    }
}

/// The positions after the moves of `moves` from index `i` on that capture a
/// piece worth `value`, after `acc`.
pub open spec fn victims(
    moves: Seq<(Seq<char>, u8, Seq<char>)>,
    i: int,
    value: int,
    acc: Seq<Seq<char>>,
) -> Seq<Seq<char>>
    decreases moves.len() - i,
{
    if i < 0 || i >= moves.len() {
        acc
    } else if moves[i].1 != NO_CAPTURE && value_of(moves[i].1) == value {
        victims(moves, i + 1, value, acc.push(moves[i].2))
    } else {
        victims(moves, i + 1, value, acc)
    }
}

/// The positions after the captures among `moves`, the most valuable victim
/// first; captures of equal worth stay in the order of `moves`.
pub open spec fn ordered_captures(moves: Seq<(Seq<char>, u8, Seq<char>)>) -> Seq<Seq<char>> {
    victims(
        moves,
        0,
        0,
        victims(
            moves,
            0,
            100,
            victims(moves, 0, 300, victims(moves, 0, 500, victims(moves, 0, 900, Seq::empty()))),
        ),
    )
}

/// The larger of two numbers.
pub open spec fn larger(a: int, b: int) -> int {
    if a >= b {
        a
    } else {
        b
    }
}

/// The worth of a position within the window from `alpha` to `beta`, when
/// captures are followed `fuel` deep: the material as it stands, or what the
/// best capture leaves, cut off at `beta`.
pub open spec fn quiesce(fen: Seq<char>, alpha: int, beta: int, fuel: nat) -> int
    decreases fuel, 0nat,
{
    let stand = material_balance(fen);
    if stand >= beta {
        beta
    } else if fuel == 0 {
        larger(alpha, stand)
    } else {
        search(ordered_captures(legal_moves(fen)), 0, larger(alpha, stand), beta, (fuel - 1) as nat)
    }
}

/// The worth within the window from `alpha` to `beta` that the captures of
/// `children` from index `i` on lead to.
pub open spec fn search(children: Seq<Seq<char>>, i: int, alpha: int, beta: int, fuel: nat) -> int
    decreases fuel, 1 + children.len() - i,
{
    if i < 0 || i >= children.len() {
        alpha
    } else {
        let score = -quiesce(children[i], -beta, -alpha, fuel);
        if score >= beta {
            beta
        } else {
            search(children, i + 1, larger(alpha, score), beta, fuel)
        }
    }
}

/// What a search gives is `beta`, or no less than the material as it stands.
pub proof fn lemma_quiesce_bounds(fen: Seq<char>, alpha: int, beta: int, fuel: nat)
    ensures
        quiesce(fen, alpha, beta, fuel) == beta || quiesce(fen, alpha, beta, fuel)
            >= material_balance(fen),
    decreases fuel,
{
    let stand = material_balance(fen);
    if stand < beta && fuel > 0 {
        lemma_search_bounds(
            ordered_captures(legal_moves(fen)),
            0,
            larger(alpha, stand),
            beta,
            (fuel - 1) as nat,
        );
    }
}

/// What the captures lead to is `beta`, or no less than `alpha`.
pub proof fn lemma_search_bounds(children: Seq<Seq<char>>, i: int, alpha: int, beta: int, fuel: nat)
    ensures
        search(children, i, alpha, beta, fuel) == beta || search(children, i, alpha, beta, fuel)
            >= alpha,
    decreases children.len() - i,
{
    if 0 <= i < children.len() {
        let score = -quiesce(children[i], -beta, -alpha, fuel);
        if score < beta {
            lemma_search_bounds(children, i + 1, larger(alpha, score), beta, fuel);
        }
    }
}

fn push_victims(moves: &Vec<LegalMove>, value: i32, out: &mut Vec<String>)
    ensures
        views(final(out)@) == victims(
            move_views(moves@),
            0,
            value as int,
            views(old(out)@),
        ),
{
    let mut i: usize = 0;
    while i < moves.len()
        invariant
            i <= moves.len(),
            victims(move_views(moves@), i as int, value as int, views(out@))
                == victims(move_views(moves@), 0, value as int, views(old(out)@)),
        decreases moves.len() - i,
    {
        assert(move_views(moves@)[i as int] == moves@[i as int]@);
        if moves[i].capture != NO_CAPTURE && piece_value(moves[i].capture) == value {
            let ghost before = views(out@);
            out.push(moves[i].after.clone());
            assert(views(out@) =~= before.push(moves@[i as int].after@));
        }
        i = i + 1;
    }
}

fn capture_children(moves: &Vec<LegalMove>) -> (r: Vec<String>)
    ensures
        views(r@) == ordered_captures(move_views(moves@)),
{
    let mut r: Vec<String> = Vec::new();
    assert(views(r@) =~= Seq::<Seq<char>>::empty());
    push_victims(moves, 900, &mut r);
    push_victims(moves, 500, &mut r);
    push_victims(moves, 300, &mut r);
    push_victims(moves, 100, &mut r);
    push_victims(moves, 0, &mut r);
    r
}

fn search_within(position: &str, alpha: i32, beta: i32, fuel: u32) -> (r: i32)
    requires
        alpha > i32::MIN,
    ensures
        r == quiesce(position@, alpha as int, beta as int, fuel as nat),
    decreases fuel,
{
    let stand: i32 = count_material(position);
    if stand >= beta {
        return beta;
    }
    let mut best: i32 = if alpha < stand {
        stand
    } else {
        alpha
    };
    if fuel == 0 {
        return best;
    }
    let listed: Vec<LegalMove> = list_moves(position);
    let children: Vec<String> = capture_children(&listed);
    let ghost all = views(children@);
    let mut i: usize = 0;
    while i < children.len()
        invariant
            i <= children.len(),
            all == views(children@),
            fuel > 0,
            i32::MIN < best,
            i32::MIN < beta,
            search(all, i as int, best as int, beta as int, (fuel - 1) as nat) == quiesce(
                position@,
                alpha as int,
                beta as int,
                fuel as nat,
            ),
        decreases children.len() - i,
    {
        assert(all[i as int] == children@[i as int]@);
        proof {
            lemma_quiesce_bounds(all[i as int], -(beta as int), -(best as int), (fuel - 1) as nat);
            lemma_balance_bounds(all[i as int]);
        }
        let reply: i32 = search_within(children[i].as_str(), -beta, -best, fuel - 1);
        let score: i32 = -reply;
        if score >= beta {
            return beta;
        }
        if score > best {
            best = score;
        }
        i = i + 1;
    }
    best
}

/// Searches the captures of a position within the window from `alpha` to `beta`.
pub fn qsearch(position: &str, alpha: i32, beta: i32) -> (r: i32)
    ensures
        r == quiesce(
            position@,
            larger(alpha as int, i32::MIN + 1),
            beta as int,
            MAX_CAPTURES as nat,
        ),
{
    let floor: i32 = if alpha == i32::MIN {
        i32::MIN + 1
    } else {
        alpha
    };
    search_within(position, floor, beta, MAX_CAPTURES)
}

/// The best of the worths that the moves of `moves` from index `i` on lead to,
/// each seen from the side that makes the move; `best` is the best so far.
pub open spec fn best_reply(moves: Seq<(Seq<char>, u8, Seq<char>)>, i: int, best: Option<int>) -> Option<
    int,
>
    decreases moves.len() - i,
{
    if i < 0 || i >= moves.len() {
        best
    } else {
        let score = -quiesce(moves[i].2, i32::MIN + 1, i32::MAX as int, MAX_CAPTURES as nat);
        best_reply(
            moves,
            i + 1,
            match best {
                Some(b) => Some(larger(b, score)),
                None => Some(score),
            },
        )
    }
}

/// The worth of a position for the side to move: the best that one move and the
/// captures after it lead to. A mated side has the least worth there is, and a
/// game that has ended otherwise none.
pub open spec fn evaluation(fen: Seq<char>) -> int {
    if game_over(fen) {
        if checkmate(fen) {
            i32::MIN as int
        } else {
            0
        }
    } else {
        match best_reply(legal_moves(fen), 0, None) {
            Some(b) => b,
            None => 0,
        }
    }
}

/// Evaluates a position for the side to move.
pub fn naive_eval(pos: &str) -> (r: i32)
    ensures
        r == evaluation(pos@),
{
    if is_game_over(pos) {
        return if is_checkmate(pos) {
            i32::MIN
        } else {
            0
        };
    }
    let listed: Vec<LegalMove> = list_moves(pos);
    let mut best: Option<i32> = None;
    let mut i: usize = 0;
    while i < listed.len()
        invariant
            i <= listed.len(),
            best_reply(
                move_views(listed@),
                i as int,
                match best {
                    Some(b) => Some(b as int),
                    None => None,
                },
            ) == best_reply(move_views(listed@), 0, None),
        decreases listed.len() - i,
    {
        assert(move_views(listed@)[i as int] == listed@[i as int]@);
        proof {
            lemma_quiesce_bounds(
                listed@[i as int].after@,
                i32::MIN + 1,
                i32::MAX as int,
                MAX_CAPTURES as nat,
            );
        }
        let reply: i32 = search_within(listed[i].after.as_str(), i32::MIN + 1, i32::MAX, MAX_CAPTURES);
        let score: i32 = -reply;
        best = match best {
            Some(b) => Some(
                if b >= score {
                    b
                } else {
                    score
                },
            ),
            None => Some(score),
        };
        i = i + 1;
    }
    match best {
        Some(b) => b,
        None => 0,
    }
}

/// Whether the move from `previous` to `current` gives material away: the mover's
/// position was worth more than a pawn above what it is worth after the move.
pub open spec fn is_sacrifice(previous: Seq<char>, current: Seq<char>) -> bool {
    evaluation(previous) > -evaluation(current) + SACRIFICE_MARGIN
}

/// Tells whether the move from one position to the next is a sacrifice.
pub fn detect_sacrifice(previous_pos: &str, current_pos: &str) -> (r: bool)
    ensures
        r == is_sacrifice(previous_pos@, current_pos@),
{
    let before: i64 = naive_eval(previous_pos) as i64;
    let after: i64 = -(naive_eval(current_pos) as i64);
    before > after + SACRIFICE_MARGIN
}

} // verus!
