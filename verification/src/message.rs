//! The lines that an engine writes, read into tagged messages.
//!
//! A line is cut into tokens at white space. Its first token decides what it is;
//! whatever is not recognised is `Unknown` and never an error.

use vstd::prelude::*;
use vstd::string::*;
use crate::text::{
    copy_range, is_word, join_strings, joined, parse_bounded, parse_i32, read_i32, read_u16,
    read_u32, read_u64, split_tokens, tokens, views,
};
use crate::types::{Score, ScoreValue, Wdl};

verus! {

/// A board file, `a` to `h`.
pub open spec fn is_file(c: char) -> bool {
    97 <= (c as u32) && (c as u32) <= 104
}

/// A board rank, `1` to `8`.
pub open spec fn is_rank(c: char) -> bool {
    49 <= (c as u32) && (c as u32) <= 56
}

/// A piece that a pawn can become: `q`, `r`, `b` or `n`.
pub open spec fn is_promotion(c: char) -> bool {
    c == 'q' || c == 'r' || c == 'b' || c == 'n'
}

/// Whether a token has the shape of a move in coordinate notation, such as `e2e4` or `e7e8q`.
pub open spec fn is_move_text(s: Seq<char>) -> bool {
    &&& (s.len() == 4 || s.len() == 5)
    &&& is_file(s[0])
    &&& is_rank(s[1])
    &&& is_file(s[2])
    &&& is_rank(s[3])
    &&& (s.len() == 5 ==> is_promotion(s[4]))
}

/// How many tokens from index `i` on have the shape of a move, up to the first that has not.
pub open spec fn move_run(t: Seq<Seq<char>>, i: int) -> nat
    decreases t.len() - i,
{
    if 0 <= i < t.len() && is_move_text(t[i]) {
        1 + move_run(t, i + 1)
    } else {
        0
    }
}

/// What an `info` line says, as plain values.
pub struct InfoView {
    pub depth: u32,
    pub multipv: u16,
    pub score: Score,
    pub nodes: u64,
    pub nps: u32,
    pub has_pv: bool,
    pub pv: Seq<Seq<char>>,
}

/// What an `info` line says. An attribute that the line does not give keeps its
/// default: depth 0, first line, level score, no nodes, no moves.
#[derive(Debug, Clone, PartialEq, Eq)]
pub struct InfoLine {
    pub depth: u32,
    pub multipv: u16,
    pub score: Score,
    pub nodes: u64,
    pub nps: u32,
    pub has_pv: bool,
    pub pv: Vec<String>,
}

impl View for InfoLine {
    type V = InfoView;

    open spec fn view(&self) -> InfoView {
        InfoView {
            depth: self.depth,
            multipv: self.multipv,
            score: self.score,
            nodes: self.nodes,
            nps: self.nps,
            has_pv: self.has_pv,
            pv: views(self.pv@),
        }
    }
}

/// An `info` line that says nothing.
pub open spec fn blank_info() -> InfoView {
    InfoView {
        depth: 0,
        multipv: 1,
        score: Score { value: ScoreValue::Cp(0), wdl: None },
        nodes: 0,
        nps: 0,
        has_pv: false,
        pv: Seq::empty(),
    }
}

/// The score value that the two tokens after `score` give, if they give one.
pub open spec fn score_value_at(t: Seq<Seq<char>>, i: int) -> Option<ScoreValue> {
    if 0 <= i && i + 1 < t.len() {
        match parse_i32(t[i + 1]) {
            Some(v) => if t[i] == "cp"@ {
                Some(ScoreValue::Cp(v as i32))
            } else if t[i] == "mate"@ {
                Some(ScoreValue::Mate(v as i32))
            } else {
                None
            },
            None => None,
        }
    } else {
        None
    }
}

/// The chances that the four tokens from `i` on give: `wdl` and three numbers.
pub open spec fn wdl_at(t: Seq<Seq<char>>, i: int) -> Option<Wdl> {
    if 0 <= i && i + 3 < t.len() && t[i] == "wdl"@ {
        match (
            parse_bounded(t[i + 1], u16::MAX as nat),
            parse_bounded(t[i + 2], u16::MAX as nat),
            parse_bounded(t[i + 3], u16::MAX as nat),
        ) {
            (Some(w), Some(d), Some(l)) => Some(Wdl { win: w as u16, draw: d as u16, loss: l as u16 }),
            _ => None,
        }
    } else {
        None
    }
}

/// The number after the keyword at `i`, where it is at most `max`.
pub open spec fn number_after(t: Seq<Seq<char>>, i: int, max: nat) -> Option<nat> {
    if 0 <= i && i + 1 < t.len() {
        parse_bounded(t[i + 1], max)
    } else {
        None
    }
}

/// Reads the attributes of an `info` line from token `i` on into `acc`.
///
/// `depth`, `multipv`, `nodes` and `nps` take the number that follows; `score` takes
/// `cp` or `mate` with an integer, and `wdl` with three numbers where it follows at once;
/// `pv` takes the moves that follow; `string` ends the line. A keyword whose value is
/// missing or out of range is passed over, and so is every other token. Where an
/// attribute comes twice the later one counts.
pub open spec fn info_from(t: Seq<Seq<char>>, i: int, acc: InfoView) -> InfoView
    decreases t.len() - i,
{
    if i < 0 || i >= t.len() {
        acc
    } else if t[i] == "depth"@ {
        match number_after(t, i, u32::MAX as nat) {
            Some(v) => info_from(t, i + 2, InfoView { depth: v as u32, ..acc }),
            None => info_from(t, i + 1, acc),
        }
    } else if t[i] == "multipv"@ {
        match number_after(t, i, u16::MAX as nat) {
            Some(v) => info_from(t, i + 2, InfoView { multipv: v as u16, ..acc }),
            None => info_from(t, i + 1, acc),
        }
    } else if t[i] == "nodes"@ {
        match number_after(t, i, u64::MAX as nat) {
            Some(v) => info_from(t, i + 2, InfoView { nodes: v as u64, ..acc }),
            None => info_from(t, i + 1, acc),
        }
    } else if t[i] == "nps"@ {
        match number_after(t, i, u32::MAX as nat) {
            Some(v) => info_from(t, i + 2, InfoView { nps: v as u32, ..acc }),
            None => info_from(t, i + 1, acc),
        }
    } else if t[i] == "score"@ {
        match score_value_at(t, i + 1) {
            Some(value) => match wdl_at(t, i + 3) {
                Some(wdl) => info_from(
                    t,
                    i + 7,
                    InfoView { score: Score { value, wdl: Some(wdl) }, ..acc },
                ),
                None => info_from(t, i + 3, InfoView { score: Score { value, wdl: None }, ..acc }),
            },
            None => info_from(t, i + 1, acc),
        }
    } else if t[i] == "pv"@ {
        let n = move_run(t, i + 1);
        if n > 0 && i + 1 + n <= t.len() {
            info_from(
                t,
                i + 1 + n,
                InfoView { has_pv: true, pv: t.subrange(i + 1, i + 1 + n), ..acc },
            )
        } else {
            info_from(t, i + 1, acc)
        }
    } else if t[i] == "string"@ {
        acc
    } else {
        info_from(t, i + 1, acc)
    }
}

/// A message of an engine, as plain values.
pub enum MessageView {
    IdName(Seq<char>),
    OptionConfig(Seq<char>),
    UciOk,
    ReadyOk,
    Info(InfoView),
    BestMove { best: Seq<char>, ponder: Option<Seq<char>> },
    Unknown,
}

/// A message of an engine.
#[derive(Debug, Clone, PartialEq, Eq)]
pub enum Message {
    /// `id name ...`: the engine's name.
    IdName(String),
    /// `option ...`: one option that the engine offers, as it describes it.
    OptionConfig(String),
    /// `uciok`: the engine has listed its options.
    UciOk,
    /// `readyok`: the engine is ready.
    ReadyOk,
    /// `info ...`: progress of the search.
    Info(InfoLine),
    /// `bestmove ...`: the search has ended.
    BestMove { best: String, ponder: Option<String> },
    /// Anything else.
    Unknown,
}

impl View for Message {
    type V = MessageView;

    open spec fn view(&self) -> MessageView {
        match self {
            Message::IdName(n) => MessageView::IdName(n@),
            Message::OptionConfig(c) => MessageView::OptionConfig(c@),
            Message::UciOk => MessageView::UciOk,
            Message::ReadyOk => MessageView::ReadyOk,
            Message::Info(i) => MessageView::Info(i@),
            Message::BestMove { best, ponder } => MessageView::BestMove {
                best: best@,
                ponder: match ponder {
                    Some(p) => Some(p@),
                    None => None,
                },
            },
            Message::Unknown => MessageView::Unknown,
        }
    }
}

/// The message that a list of tokens makes.
pub open spec fn message_of(t: Seq<Seq<char>>) -> MessageView {
    if t.len() == 0 {
        MessageView::Unknown
    } else if t[0] == "info"@ {
        MessageView::Info(info_from(t, 1, blank_info()))
    } else if t[0] == "bestmove"@ && t.len() >= 2 {
        MessageView::BestMove {
            best: t[1],
            ponder: if t.len() >= 4 && t[2] == "ponder"@ {
                Some(t[3])
            } else {
                None
            },
        }
    } else if t[0] == "uciok"@ {
        MessageView::UciOk
    } else if t[0] == "readyok"@ {
        MessageView::ReadyOk
    } else if t[0] == "id"@ && t.len() >= 3 && t[1] == "name"@ {
        MessageView::IdName(joined(t.subrange(2, t.len() as int)))
    } else if t[0] == "option"@ && t.len() >= 2 {
        MessageView::OptionConfig(joined(t.subrange(1, t.len() as int)))
    } else {
        MessageView::Unknown
    }
}

/// The message that a line makes.
pub open spec fn parsed(line: Seq<char>) -> MessageView {
    message_of(tokens(line))
}

fn file_char(c: char) -> (r: bool)
    ensures
        r == is_file(c),
{
    let code: u32 = c as u32;
    97 <= code && code <= 104
}

fn rank_char(c: char) -> (r: bool)
    ensures
        r == is_rank(c),
{
    let code: u32 = c as u32;
    49 <= code && code <= 56
}

/// Whether a token has the shape of a move in coordinate notation.
pub fn move_shaped(tok: &str) -> (r: bool)
    ensures
        r == is_move_text(tok@),
{
    let n: usize = tok.unicode_len();
    if n != 4 && n != 5 {
        return false;
    }
    if !(file_char(tok.get_char(0)) && rank_char(tok.get_char(1)) && file_char(tok.get_char(2))
        && rank_char(tok.get_char(3))) {
        return false;
    }
    if n == 5 {
        let c: char = tok.get_char(4);
        c == 'q' || c == 'r' || c == 'b' || c == 'n'
    } else {
        true
    }
}

fn count_moves(t: &Vec<String>, i: usize) -> (n: usize)
    requires
        i <= t@.len(),
    ensures
        n == move_run(views(t@), i as int),
        i + n <= t@.len(),
{
    let mut k: usize = i;
    while k < t.len() && move_shaped(t[k].as_str())
        invariant
            i <= k <= t@.len(),
            move_run(views(t@), i as int) == (k - i) + move_run(views(t@), k as int),
        decreases t@.len() - k,
    {
        k = k + 1;
    }
    k - i
}

fn read_score_value(t: &Vec<String>, i: usize) -> (r: Option<ScoreValue>)
    requires
        i <= t@.len(),
    ensures
        r == score_value_at(views(t@), i as int),
{
    if t.len() - i < 2 {
        return None;
    }
    match read_i32(t[i + 1].as_str()) {
        Some(v) => if is_word(&t[i], "cp") {
            Some(ScoreValue::Cp(v))
        } else if is_word(&t[i], "mate") {
            Some(ScoreValue::Mate(v))
        } else {
            None
        },
        None => None,
    }
}

fn read_wdl(t: &Vec<String>, i: usize) -> (r: Option<Wdl>)
    requires
        i <= t@.len(),
    ensures
        r == wdl_at(views(t@), i as int),
{
    if t.len() - i < 4 {
        return None;
    }
    if !is_word(&t[i], "wdl") {
        return None;
    }
    match (
        read_u16(t[i + 1].as_str()),
        read_u16(t[i + 2].as_str()),
        read_u16(t[i + 3].as_str()),
    ) {
        (Some(w), Some(d), Some(l)) => Some(Wdl { win: w, draw: d, loss: l }),
        _ => None,
    }
}

/// Reads the attributes of an `info` line; `t` holds the line's tokens, `info` first.
pub fn read_info(t: &Vec<String>) -> (r: InfoLine)
    ensures
        r@ == info_from(views(t@), 1, blank_info()),
{
    let mut acc = InfoLine {
        depth: 0,
        multipv: 1,
        score: Score::level(),
        nodes: 0,
        nps: 0,
        has_pv: false,
        pv: Vec::new(),
    };
    assert(views(acc.pv@) =~= Seq::<Seq<char>>::empty());
    let n: usize = t.len();
    if n == 0 {
        return acc;
    }
    let mut i: usize = 1;
    while i < n
        invariant
            n == t@.len(),
            1 <= i <= n,
            info_from(views(t@), i as int, acc@) == info_from(views(t@), 1, blank_info()),
        decreases n - i,
    {
        let ghost tv = views(t@);
        let has_next: bool = n - i >= 2;
        if is_word(&t[i], "depth") {
            let v: Option<u32> = if has_next {
                read_u32(t[i + 1].as_str())
            } else {
                None
            };
            match v {
                Some(d) => {
                    acc.depth = d;
                    i = i + 2;
                },
                None => {
                    i = i + 1;
                },
            }
        } else if is_word(&t[i], "multipv") {
            let v: Option<u16> = if has_next {
                read_u16(t[i + 1].as_str())
            } else {
                None
            };
            match v {
                Some(m) => {
                    acc.multipv = m;
                    i = i + 2;
                },
                None => {
                    i = i + 1;
                },
            }
        } else if is_word(&t[i], "nodes") {
            let v: Option<u64> = if has_next {
                read_u64(t[i + 1].as_str())
            } else {
                None
            };
            match v {
                Some(m) => {
                    acc.nodes = m;
                    i = i + 2;
                },
                None => {
                    i = i + 1;
                },
            }
        } else if is_word(&t[i], "nps") {
            let v: Option<u32> = if has_next {
                read_u32(t[i + 1].as_str())
            } else {
                None
            };
            match v {
                Some(m) => {
                    acc.nps = m;
                    i = i + 2;
                },
                None => {
                    i = i + 1;
                },
            }
        } else if is_word(&t[i], "score") {
            match read_score_value(t, i + 1) {
                Some(value) => {
                    let wdl: Option<Wdl> = if n - i >= 3 {
                        read_wdl(t, i + 3)
                    } else {
                        None
                    };
                    match wdl {
                        Some(w) => {
                            acc.score = Score { value, wdl: Some(w) };
                            i = i + 7;
                        },
                        None => {
                            acc.score = Score { value, wdl: None };
                            i = i + 3;
                        },
                    }
                },
                None => {
                    i = i + 1;
                },
            }
        } else if is_word(&t[i], "pv") {
            let k: usize = count_moves(t, i + 1);
            if k > 0 {
                acc.pv = copy_range(t, i + 1, i + 1 + k);
                acc.has_pv = true;
                i = i + 1 + k;
            } else {
                i = i + 1;
            }
        } else if is_word(&t[i], "string") {
            return acc;
        } else {
            i = i + 1;
        }
    }
    acc
}

/// Reads one line of an engine.
pub fn parse_line(line: &str) -> (r: Message)
    ensures
        r@ == parsed(line@),
{
    let t: Vec<String> = split_tokens(line);
    let n: usize = t.len();
    if n == 0 {
        return Message::Unknown;
    }
    if is_word(&t[0], "info") {
        Message::Info(read_info(&t))
    } else if is_word(&t[0], "bestmove") && n >= 2 {
        let ponder: Option<String> = if n >= 4 && is_word(&t[2], "ponder") {
            Some(t[3].clone())
        } else {
            None
        };
        Message::BestMove { best: t[1].clone(), ponder }
    } else if is_word(&t[0], "uciok") {
        Message::UciOk
    } else if is_word(&t[0], "readyok") {
        Message::ReadyOk
    } else if is_word(&t[0], "id") && n >= 3 && is_word(&t[1], "name") {
        let rest: Vec<String> = copy_range(&t, 2, n);
        Message::IdName(join_strings(&rest))
    } else if is_word(&t[0], "option") && n >= 2 {
        let rest: Vec<String> = copy_range(&t, 1, n);
        Message::OptionConfig(join_strings(&rest))
    } else {
        Message::Unknown
    }
}

} // verus!
