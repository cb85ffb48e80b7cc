//! The values that callers hand to a session and get back from it.

use vstd::prelude::*;
use vstd::string::*;
use crate::text::{copy_strings, same_strings, views};

verus! {

/// What an engine reports of a position: centipawns, or moves to mate.
#[derive(Debug, Clone, Copy, PartialEq, Eq, Structural)]
pub enum ScoreValue {
    /// Advantage in hundredths of a pawn.
    Cp(i32),
    /// Moves until mate; negative when the side to move is being mated.
    Mate(i32),
}

/// The chances of win, draw and loss, in permille.
#[derive(Debug, Clone, Copy, PartialEq, Eq, Structural)]
pub struct Wdl {
    pub win: u16,
    pub draw: u16,
    pub loss: u16,
}

/// A score, with the chances of win, draw and loss in permille where the engine gives them.
#[derive(Debug, Clone, Copy, PartialEq, Eq, Structural)]
pub struct Score {
    pub value: ScoreValue,
    pub wdl: Option<Wdl>,
}

/// The negative of `x`; the one value that has none within 32 bits goes to the largest.
pub open spec fn negated(x: i32) -> i32 {
    if x == i32::MIN {
        i32::MAX
    } else {
        (-x) as i32
    }
}

/// A score seen from the other side: the value negated, win and loss exchanged.
pub open spec fn inverted(score: Score) -> Score {
    Score {
        value: match score.value {
            ScoreValue::Cp(x) => ScoreValue::Cp(negated(x)),
            ScoreValue::Mate(x) => ScoreValue::Mate(negated(x)),
        },
        wdl: match score.wdl {
            Some(c) => Some(Wdl { win: c.loss, draw: c.draw, loss: c.win }),
            None => None,
        },
    }
}

/// The score as the engine gave it for White to move, seen from the other side for Black.
pub open spec fn oriented(score: Score, black_to_move: bool) -> Score {
    if black_to_move {
        inverted(score)
    } else {
        score
    }
}

fn negate(x: i32) -> (r: i32)
    ensures
        r == negated(x),
{
    if x == i32::MIN {
        i32::MAX
    } else {
        -x
    }
}

/// Turns a score round to the other side's point of view.
pub fn invert_score(score: Score) -> (r: Score)
    ensures
        r == inverted(score),
{
    let value = match score.value {
        ScoreValue::Cp(x) => ScoreValue::Cp(negate(x)),
        ScoreValue::Mate(x) => ScoreValue::Mate(negate(x)),
    };
    let wdl = match score.wdl {
        Some(c) => Some(Wdl { win: c.loss, draw: c.draw, loss: c.win }),
        None => None,
    };
    Score { value, wdl }
}

impl Score {
    /// The score of a line of which the engine said nothing: level.
    pub fn level() -> (r: Score)
        ensures
            r == (Score { value: ScoreValue::Cp(0), wdl: None }),
    {
        Score { value: ScoreValue::Cp(0), wdl: None }
    }
}

/// Turning a score round twice gives it back, unless its value has no negative.
pub proof fn lemma_invert_twice(score: Score)
    requires
        match score.value {
            ScoreValue::Cp(x) => x != i32::MIN,
            ScoreValue::Mate(x) => x != i32::MIN,
        },
    ensures
        inverted(inverted(score)) == score,
{
}

/// The clocks of a game in progress, in milliseconds.
#[derive(Debug, Clone, Copy, PartialEq, Eq, Structural)]
pub struct PlayersTime {
    pub white: u32,
    pub black: u32,
    pub winc: u32,
    pub binc: u32,
}

/// How long the engine is to think.
#[derive(Debug, Clone, Copy, PartialEq, Eq, Structural)]
pub enum GoMode {
    PlayersTime(PlayersTime),
    Depth(u32),
    Time(u32),
    Nodes(u64),
    Infinite,
}

/// One engine setting.
#[derive(Debug, Clone, PartialEq, Eq)]
pub struct EngineOption {
    pub name: String,
    pub value: String,
}

impl View for EngineOption {
    type V = (Seq<char>, Seq<char>);

    open spec fn view(&self) -> (Seq<char>, Seq<char>) {
        (self.name@, self.value@)
    }
}

/// The views of a list of settings.
pub open spec fn option_views(v: Seq<EngineOption>) -> Seq<(Seq<char>, Seq<char>)> {
    Seq::new(v.len(), |i: int| v[i]@)
}

impl EngineOption {
    pub fn new(name: &str, value: &str) -> (r: EngineOption)
        ensures
            r@ == (name@, value@),
    {
        EngineOption { name: String::from_str(name), value: String::from_str(value) }
    }

    /// Whether both settings have the same name and value.
    pub fn equals(&self, other: &EngineOption) -> (r: bool)
        ensures
            r == (self@ == other@),
    {
        self.name == other.name && self.value == other.value
    }

    pub fn duplicate(&self) -> (r: EngineOption)
        ensures
            r@ == self@,
    {
        EngineOption { name: self.name.clone(), value: self.value.clone() }
    }
}

/// Whether two lists hold the same settings in the same order.
pub fn same_options(a: &Vec<EngineOption>, b: &Vec<EngineOption>) -> (r: bool)
    ensures
        r == (option_views(a@) == option_views(b@)),
{
    if a.len() != b.len() {
        assert(option_views(a@).len() != option_views(b@).len());
        return false;
    }
    let mut i: usize = 0;
    while i < a.len()
        invariant
            a.len() == b.len(),
            i <= a.len(),
            forall|j: int| 0 <= j < i ==> a@[j]@ == b@[j]@,
        decreases a.len() - i,
    {
        if !a[i].equals(&b[i]) {
            assert(option_views(a@)[i as int] != option_views(b@)[i as int]);
            return false;
        }
        i = i + 1;
    }
    assert(option_views(a@) =~= option_views(b@));
    true
}

/// A copy of a list of settings.
pub fn copy_options(a: &Vec<EngineOption>) -> (r: Vec<EngineOption>)
    ensures
        option_views(r@) == option_views(a@),
{
    let mut r: Vec<EngineOption> = Vec::new();
    let mut i: usize = 0;
    while i < a.len()
        invariant
            i <= a.len(),
            r@.len() == i,
            forall|j: int| 0 <= j < i ==> r@[j]@ == a@[j]@,
        decreases a.len() - i,
    {
        r.push(a[i].duplicate());
        i = i + 1;
    }
    assert(option_views(r@) =~= option_views(a@));
    r
}

/// What a position to analyse and the engine's settings are, as plain values.
pub struct EngineOptionsView {
    pub fen: Seq<char>,
    pub moves: Seq<Seq<char>>,
    pub extra_options: Seq<(Seq<char>, Seq<char>)>,
}

/// The position to analyse, as a starting position and the moves played from it,
/// and the settings of the engine.
#[derive(Debug, Clone, PartialEq, Eq)]
pub struct EngineOptions {
    pub fen: String,
    pub moves: Vec<String>,
    pub extra_options: Vec<EngineOption>,
}

impl View for EngineOptions {
    type V = EngineOptionsView;

    open spec fn view(&self) -> EngineOptionsView {
        EngineOptionsView {
            fen: self.fen@,
            moves: views(self.moves@),
            extra_options: option_views(self.extra_options@),
        }
    }
}

impl EngineOptions {
    /// No position and no settings: what a session holds before the first request.
    pub fn empty() -> (r: EngineOptions)
        ensures
            r@.fen == Seq::<char>::empty(),
            r@.moves == Seq::<Seq<char>>::empty(),
            r@.extra_options == Seq::<(Seq<char>, Seq<char>)>::empty(),
    {
        let r = EngineOptions { fen: String::new(), moves: Vec::new(), extra_options: Vec::new() };
        assert(views(r.moves@) =~= Seq::<Seq<char>>::empty());
        assert(option_views(r.extra_options@) =~= Seq::<(Seq<char>, Seq<char>)>::empty());
        r
    }

    /// Whether position, moves and settings are all the same.
    pub fn equals(&self, other: &EngineOptions) -> (r: bool)
        ensures
            r == (self@ == other@),
    {
        self.fen == other.fen && same_strings(&self.moves, &other.moves) && same_options(
            &self.extra_options,
            &other.extra_options,
        )
    }

    pub fn duplicate(&self) -> (r: EngineOptions)
        ensures
            r@ == self@,
    {
        EngineOptions {
            fen: self.fen.clone(),
            moves: copy_strings(&self.moves),
            extra_options: copy_options(&self.extra_options),
        }
    }
}

/// One analysis line as plain values.
pub struct BestMovesView {
    pub nodes: u32,
    pub depth: u32,
    pub score: Score,
    pub uci_moves: Seq<Seq<char>>,
    pub san_moves: Seq<Seq<char>>,
    pub multipv: u16,
    pub nps: u32,
}

/// One analysis line: what the engine says of one of the best moves.
#[derive(Debug, Clone, PartialEq, Eq)]
pub struct BestMoves {
    pub nodes: u32,
    pub depth: u32,
    pub score: Score,
    pub uci_moves: Vec<String>,
    pub san_moves: Vec<String>,
    pub multipv: u16,
    pub nps: u32,
}

impl View for BestMoves {
    type V = BestMovesView;

    open spec fn view(&self) -> BestMovesView {
        BestMovesView {
            nodes: self.nodes,
            depth: self.depth,
            score: self.score,
            uci_moves: views(self.uci_moves@),
            san_moves: views(self.san_moves@),
            multipv: self.multipv,
            nps: self.nps,
        }
    }
}

impl BestMovesView {
    /// A line is sound when it has a move, and as many moves in one notation as in the other.
    pub open spec fn wf(self) -> bool {
        self.uci_moves.len() == self.san_moves.len() && self.uci_moves.len() >= 1
    }
}

impl BestMoves {
    pub fn duplicate(&self) -> (r: BestMoves)
        ensures
            r@ == self@,
    {
        BestMoves {
            nodes: self.nodes,
            depth: self.depth,
            score: self.score,
            uci_moves: copy_strings(&self.uci_moves),
            san_moves: copy_strings(&self.san_moves),
            multipv: self.multipv,
            nps: self.nps,
        }
    }
}

/// The views of a list of analysis lines.
pub open spec fn line_views(v: Seq<BestMoves>) -> Seq<BestMovesView> {
    Seq::new(v.len(), |i: int| v[i]@)
}

/// A copy of a list of analysis lines.
pub fn copy_lines(a: &Vec<BestMoves>) -> (r: Vec<BestMoves>)
    ensures
        line_views(r@) == line_views(a@),
{
    let mut r: Vec<BestMoves> = Vec::new();
    let mut i: usize = 0;
    while i < a.len()
        invariant
            i <= a.len(),
            r@.len() == i,
            forall|j: int| 0 <= j < i ==> r@[j]@ == a@[j]@,
        decreases a.len() - i,
    {
        r.push(a[i].duplicate());
        i = i + 1;
    }
    assert(line_views(r@) =~= line_views(a@));
    r
}

/// One entry of a session's record of the dialogue with its engine.
#[derive(Debug, Clone, PartialEq, Eq)]
pub enum EngineLog {
    /// A command that was sent to the engine.
    Gui(String),
    /// A line that the engine wrote.
    Engine(String),
}


/// One entry of the record as plain values.
pub enum EngineLogView {
    Gui(Seq<char>),
    Engine(Seq<char>),
}

impl View for EngineLog {
    type V = EngineLogView;

    open spec fn view(&self) -> EngineLogView {
        match self {
            EngineLog::Gui(t) => EngineLogView::Gui(t@),
            EngineLog::Engine(t) => EngineLogView::Engine(t@),
        }
    }
}

/// The views of a record.
pub open spec fn log_views(v: Seq<EngineLog>) -> Seq<EngineLogView> {
    Seq::new(v.len(), |i: int| v[i]@)
}

/// A record holds this many entries at most.
pub const MAX_LOG_ENTRIES: usize = 10000;

/// When a record is full, this many of its latest entries are kept.
pub const KEPT_LOG_ENTRIES: usize = 5000;

/// The entry that stands at the head of a record from which entries were dropped.
pub open spec fn truncation_note() -> EngineLogView {
    EngineLogView::Gui("log truncated\n"@)
}

/// A record with one more entry. A record that is full first drops all but its
/// latest `KEPT_LOG_ENTRIES` entries, and says so at its head.
pub open spec fn recorded(logs: Seq<EngineLogView>, entry: EngineLogView) -> Seq<EngineLogView> {
    if logs.len() < MAX_LOG_ENTRIES {
        logs.push(entry)
    } else {
        (seq![truncation_note()] + logs.subrange(
            logs.len() - KEPT_LOG_ENTRIES,
            logs.len() as int,
        )).push(entry)
    }
}

/// A record with the entries of `entries` from index `i` on added one by one.
pub open spec fn recorded_all(logs: Seq<EngineLogView>, entries: Seq<EngineLogView>, i: int) -> Seq<
    EngineLogView,
>
    decreases entries.len() - i,
{
    if i < 0 || i >= entries.len() {
        logs
    } else {
        recorded_all(recorded(logs, entries[i]), entries, i + 1)
    }
}

impl EngineLog {
    pub fn duplicate(&self) -> (r: EngineLog)
        ensures
            r@ == self@,
    {
        match self {
            EngineLog::Gui(t) => EngineLog::Gui(t.clone()),
            EngineLog::Engine(t) => EngineLog::Engine(t.clone()),
        }
    }
}

/// Adds an entry to a record, making room first where the record is full.
pub fn push_log(logs: &mut Vec<EngineLog>, entry: EngineLog)
    ensures
        log_views(final(logs)@) == recorded(log_views(old(logs)@), entry@),
{
    if logs.len() < MAX_LOG_ENTRIES {
        logs.push(entry);
        assert(log_views(logs@) =~= log_views(old(logs)@).push(entry@));
    } else {
        let n: usize = logs.len();
        let from: usize = n - KEPT_LOG_ENTRIES;
        let mut kept: Vec<EngineLog> = Vec::new();
        kept.push(EngineLog::Gui(String::from_str("log truncated\n")));
        let mut i: usize = from;
        while i < n
            invariant
                n == logs@.len(),
                logs@ == old(logs)@,
                from <= i <= n,
                kept@.len() == 1 + (i - from),
                kept@[0]@ == truncation_note(),
                forall|k: int| 1 <= k < kept@.len() ==> (#[trigger] kept@[k])@ == logs@[from + k - 1]@,
            decreases n - i,
        {
            kept.push(logs[i].duplicate());
            i = i + 1;
        }
        kept.push(entry);
        *logs = kept;
        assert(log_views(logs@) =~= recorded(log_views(old(logs)@), entry@));
    }
}

/// A copy of a record.
pub fn copy_logs(a: &Vec<EngineLog>) -> (r: Vec<EngineLog>)
    ensures
        log_views(r@) == log_views(a@),
{
    let mut r: Vec<EngineLog> = Vec::new();
    let mut i: usize = 0;
    while i < a.len()
        invariant
            i <= a.len(),
            r@.len() == i,
            forall|j: int| 0 <= j < i ==> r@[j]@ == a@[j]@,
        decreases a.len() - i,
    {
        r.push(a[i].duplicate());
        i = i + 1;
    }
    assert(log_views(r@) =~= log_views(a@));
    r
}

/// Adds a line to a list of analysis lines.
pub fn push_line(lines: &mut Vec<BestMoves>, line: BestMoves)
    ensures
        line_views(final(lines)@) == line_views(old(lines)@).push(line@),
{
    lines.push(line);
    assert(line_views(lines@) =~= line_views(old(lines)@).push(line@));
}

/// Whether every line of a list has the depth `depth`.
pub open spec fn all_at_depth(lines: Seq<BestMovesView>, depth: u32) -> bool {
    forall|k: int| 0 <= k < lines.len() ==> (#[trigger] lines[k]).depth == depth
}

/// Whether every line of a list is sound.
pub open spec fn all_sound(lines: Seq<BestMovesView>) -> bool {
    forall|k: int| 0 <= k < lines.len() ==> (#[trigger] lines[k]).wf()
}

/// Tells whether every line of a list has the depth `depth`.
pub fn same_depth(lines: &Vec<BestMoves>, depth: u32) -> (r: bool)
    ensures
        r == all_at_depth(line_views(lines@), depth),
{
    let mut i: usize = 0;
    while i < lines.len()
        invariant
            i <= lines.len(),
            forall|k: int| 0 <= k < i ==> (#[trigger] line_views(lines@)[k]).depth == depth,
        decreases lines.len() - i,
    {
        if lines[i].depth != depth {
            assert(line_views(lines@)[i as int].depth != depth);
            return false;
        }
        i = i + 1;
    }
    true
}

/// What is sent to the front end: the best lines of a position, and how far the search has come.
pub struct BestMovesPayloadView {
    pub best_lines: Seq<BestMovesView>,
    pub engine: Seq<char>,
    pub tab: Seq<char>,
    pub fen: Seq<char>,
    pub moves: Seq<Seq<char>>,
    pub progress: u32,
}

/// What is sent to the front end during a search.
#[derive(Debug, Clone, PartialEq, Eq)]
pub struct BestMovesPayload {
    pub best_lines: Vec<BestMoves>,
    /// The caller's name for the engine.
    pub engine: String,
    pub tab: String,
    pub fen: String,
    pub moves: Vec<String>,
    /// How far the search has come, in hundredths of a percent.
    pub progress: u32,
}

impl View for BestMovesPayload {
    type V = BestMovesPayloadView;

    open spec fn view(&self) -> BestMovesPayloadView {
        BestMovesPayloadView {
            best_lines: line_views(self.best_lines@),
            engine: self.engine@,
            tab: self.tab@,
            fen: self.fen@,
            moves: views(self.moves@),
            progress: self.progress,
        }
    }
}

/// How far the analysis of a game has come.
#[derive(Debug, Clone, PartialEq, Eq)]
pub struct ReportProgress {
    /// In hundredths of a percent.
    pub progress: u32,
    pub id: String,
    pub finished: bool,
}


/// What tells one cached analysis from another.
#[derive(Debug, Clone, PartialEq, Eq, Hash)]
pub struct AnalysisCacheKey {
    pub tab: String,
    pub fen: String,
    pub engine: String,
    pub multipv: u16,
}

} // verus!
