//! The analysis of a whole game: which positions are analysed and in what
//! order, what the engine is asked of each, and which move is the novelty.
//!
//! The engine and the reference database are reached by the caller. `GameAnalysis`
//! tells it what to ask next, and takes the answers.

use vstd::prelude::*;
use vstd::string::*;
use crate::board::{board_text, game_over, is_game_over, play, played, set_up};
use crate::error::Error;
use crate::eval::{detect_sacrifice, is_sacrifice};
use crate::text::{copy_range, copy_strings, is_word, views};
use crate::types::{
    copy_options, line_views, option_views, BestMoves, BestMovesView, EngineOption,
    EngineOptions, EngineOptionsView, ReportProgress,
};

verus! {

/// How many lines the engine is asked for in the analysis of a game.
pub open spec fn game_multipv() -> Seq<char> {
    "2"@
}

/// What is asked of the analysis of a game.
#[derive(Debug, Clone, PartialEq, Eq)]
pub struct AnalysisOptions {
    /// The position that the game starts from.
    pub fen: String,
    /// The moves of the game.
    pub moves: Vec<String>,
    /// Whether the first position that the reference database does not know is to be marked.
    pub annotate_novelties: bool,
    /// Where the reference database is.
    pub reference_db: Option<String>,
    /// Whether the positions are analysed from the last to the first.
    pub reversed: bool,
}

/// One position to analyse, as plain values.
pub struct AnalysisPositionView {
    pub fen: Seq<char>,
    pub moves: Seq<Seq<char>>,
    pub is_sacrifice: bool,
}

/// One position to analyse.
#[derive(Debug, Clone, PartialEq, Eq)]
pub struct AnalysisPosition {
    /// The position.
    pub fen: String,
    /// The moves of the game that lead to it.
    pub moves: Vec<String>,
    /// Whether the last of these moves gave material away.
    pub is_sacrifice: bool,
}

impl View for AnalysisPosition {
    type V = AnalysisPositionView;

    open spec fn view(&self) -> AnalysisPositionView {
        AnalysisPositionView {
            fen: self.fen@,
            moves: views(self.moves@),
            is_sacrifice: self.is_sacrifice,
        }
    }
}

/// The views of a list of positions.
pub open spec fn position_views(v: Seq<AnalysisPosition>) -> Seq<AnalysisPositionView> {
    Seq::new(v.len(), |i: int| v[i]@)
}

/// What the analysis says of one position, as plain values.
pub struct MoveAnalysisView {
    pub best: Seq<BestMovesView>,
    pub novelty: bool,
    pub is_sacrifice: bool,
}

/// What the analysis says of one position.
#[derive(Debug, Clone, PartialEq, Eq)]
pub struct MoveAnalysis {
    /// The engine's last complete snapshot of the position.
    pub best: Vec<BestMoves>,
    /// Whether this is the first position that the reference database does not know.
    pub novelty: bool,
    /// Whether the move that led here gave material away.
    pub is_sacrifice: bool,
}

impl View for MoveAnalysis {
    type V = MoveAnalysisView;

    open spec fn view(&self) -> MoveAnalysisView {
        MoveAnalysisView {
            best: line_views(self.best@),
            novelty: self.novelty,
            is_sacrifice: self.is_sacrifice,
        }
    }
}

/// The views of a list of results.
pub open spec fn analysis_views(v: Seq<MoveAnalysis>) -> Seq<MoveAnalysisView> {
    Seq::new(v.len(), |i: int| v[i]@)
}

/// The positions to analyse that the moves of `moves` from index `i` on lead to
/// from `pos`, after `acc`: each position in which the game has not ended, with
/// the moves that lead to it and whether the last of them was a sacrifice.
pub open spec fn positions_from(
    pos: Seq<char>,
    moves: Seq<Seq<char>>,
    i: int,
    acc: Seq<AnalysisPositionView>,
) -> Result<Seq<AnalysisPositionView>, Error>
    decreases moves.len() - i,
{
    if i < 0 || i >= moves.len() {
        Ok(acc)
    } else {
        match played(pos, moves[i]) {
            None => Err(Error::IllegalMove),
            Some(step) => positions_from(
                step.1,
                moves,
                i + 1,
                if game_over(step.1) {
                    acc
                } else {
                    acc.push(
                        AnalysisPositionView {
                            fen: step.1,
                            moves: moves.take(i + 1),
                            is_sacrifice: is_sacrifice(pos, step.1),
                        },
                    )
                },
            ),
        }
    }
}

/// The positions to analyse of a game: the starting position, then every
/// position of the game in which it has not ended.
pub open spec fn analysis_positions(fen: Seq<char>, moves: Seq<Seq<char>>) -> Result<
    Seq<AnalysisPositionView>,
    Error,
> {
    match board_text(fen) {
        None => Err(Error::InvalidPosition),
        Some(start) => positions_from(
            start,
            moves,
            0,
            seq![AnalysisPositionView { fen: start, moves: Seq::empty(), is_sacrifice: false }],
        ),
    }
}

/// Lists the positions of a game that are to be analysed.
///
/// Fails with `InvalidPosition` where the starting position cannot be set up,
/// and with `IllegalMove` at the first move that cannot be played.
pub fn build_analysis_positions(options: &AnalysisOptions) -> (r: Result<
    Vec<AnalysisPosition>,
    Error,
>)
    ensures
        match r {
            Ok(positions) => analysis_positions(options.fen@, views(options.moves@)) == Ok::<
                Seq<AnalysisPositionView>,
                Error,
            >(position_views(positions@)) && positions@.len() >= 1,
            Err(e) => analysis_positions(options.fen@, views(options.moves@)) == Err::<
                Seq<AnalysisPositionView>,
                Error,
            >(e),
        },
{
    let start: String = match set_up(options.fen.as_str()) {
        Some(s) => s,
        None => {
            return Err(Error::InvalidPosition);
        },
    };
    let ghost all = views(options.moves@);
    let ghost origin = start@;
    let ghost seed = seq![
        AnalysisPositionView { fen: origin, moves: Seq::empty(), is_sacrifice: false },
    ];
    let mut positions: Vec<AnalysisPosition> = Vec::new();
    let mut pos: String = start.clone();
    positions.push(AnalysisPosition { fen: start, moves: Vec::new(), is_sacrifice: false });
    proof {
        assert(views(positions@[0].moves@) =~= Seq::<Seq<char>>::empty());
        assert(position_views(positions@) =~= seed);
    }
    let mut i: usize = 0;
    while i < options.moves.len()
        invariant
            i <= options.moves@.len(),
            all == views(options.moves@),
            board_text(options.fen@) == Some(origin),
            seed == seq![
                AnalysisPositionView { fen: origin, moves: Seq::empty(), is_sacrifice: false },
            ],
            positions@.len() >= 1,
            positions_from(pos@, all, i as int, position_views(positions@)) == positions_from(
                origin,
                all,
                0,
                seed,
            ),
        decreases options.moves@.len() - i,
    {
        assert(all[i as int] == options.moves@[i as int]@);
        let next: String = match play(pos.as_str(), options.moves[i].as_str()) {
            Some(step) => step.1,
            None => {
                return Err(Error::IllegalMove);
            },
        };
        if !is_game_over(next.as_str()) {
            let ghost before = position_views(positions@);
            let sacrifice: bool = detect_sacrifice(pos.as_str(), next.as_str());
            let so_far: Vec<String> = copy_range(&options.moves, 0, i + 1);
            let entry = AnalysisPosition { fen: next.clone(), moves: so_far, is_sacrifice: sacrifice };
            proof {
                assert(all.subrange(0, i + 1) =~= all.take(i + 1));
            }
            positions.push(entry);
            assert(position_views(positions@) =~= before.push(entry@));
        }
        pos = next;
        i = i + 1;
    }
    Ok(positions)
}

/// The settings with `MultiPV` at two: the first setting of that name takes the
/// value, or a setting of that name is added at the end.
pub open spec fn with_two_lines(opts: Seq<(Seq<char>, Seq<char>)>, i: int) -> Seq<
    (Seq<char>, Seq<char>),
>
    decreases opts.len() - i,
{
    if i < 0 || i >= opts.len() {
        opts.push(("MultiPV"@, game_multipv()))
    } else if opts[i].0 == "MultiPV"@ {
        opts.update(i, ("MultiPV"@, game_multipv()))
    } else {
        with_two_lines(opts, i + 1)
    }
}

/// Makes the settings ask for two lines, whatever they asked for.
pub fn ensure_multipv_option(options: &mut Vec<EngineOption>)
    ensures
        option_views(final(options)@) == with_two_lines(option_views(old(options)@), 0),
{
    let mut i: usize = 0;
    while i < options.len()
        invariant
            i <= options.len(),
            options@ == old(options)@,
            with_two_lines(option_views(options@), i as int) == with_two_lines(
                option_views(old(options)@),
                0,
            ),
        decreases options.len() - i,
    {
        assert(option_views(options@)[i as int] == options@[i as int]@);
        if is_word(&options[i].name, "MultiPV") {
            let ghost before = option_views(options@);
            let name: String = options[i].name.clone();
            options[i] = EngineOption { name, value: String::from_str("2") };
            assert(option_views(options@) =~= before.update(i as int, ("MultiPV"@, game_multipv())));
            return ;
        }
        i = i + 1;
    }
    let ghost before = option_views(options@);
    options.push(EngineOption::new("MultiPV", "2"));
    assert(option_views(options@) =~= before.push(("MultiPV"@, game_multipv())));
}

/// How far the analysis of a game has come when `done` of `total` positions are
/// analysed, in hundredths of a percent.
pub open spec fn analysis_share(done: usize, total: usize) -> int {
    if total == 0 || done >= total {
        10000
    } else {
        (done as int) * 10000 / (total as int)
    }
}

/// Computes how far the analysis of a game has come.
pub fn analysis_progress(done: usize, total: usize) -> (r: u32)
    ensures
        r == analysis_share(done, total),
        r <= 10000,
{
    if total == 0 || done >= total {
        10000
    } else {
        let wide: u128 = (done as u128) * 10000 / (total as u128);
        assert(wide < 10000) by (nonlinear_arith)
            requires
                wide == (done as int) * 10000 / (total as int),
                0 <= done < total,
        ;
        wide as u32
    }
}

/// A list turned round.
pub fn turned<T>(v: Vec<T>) -> (r: Vec<T>)
    ensures
        r@ == v@.reverse(),
{
    let mut rest: Vec<T> = v;
    let mut r: Vec<T> = Vec::new();
    while rest.len() > 0
        invariant
            rest@.len() + r@.len() == v@.len(),
            forall|k: int| 0 <= k < rest@.len() ==> rest@[k] == v@[k],
            forall|k: int| 0 <= k < r@.len() ==> r@[k] == v@[v@.len() - 1 - k],
        decreases rest@.len(),
    {
        match rest.pop() {
            Some(x) => {
                r.push(x);
            },
            None => {},
        }
    }
    assert(r@ =~= v@.reverse());
    r
}


/// A list in the order of the game, or turned round.
pub open spec fn ordered<T>(s: Seq<T>, reversed: bool) -> Seq<T> {
    if reversed {
        s.reverse()
    } else {
        s
    }
}

/// The analysis of a game under way, as plain values.
pub struct GameAnalysisView {
    pub fen: Seq<char>,
    pub positions: Seq<AnalysisPositionView>,
    pub reversed: bool,
    pub annotate: bool,
    pub uci_options: Seq<(Seq<char>, Seq<char>)>,
    pub next: usize,
    pub analysis: Seq<MoveAnalysisView>,
    pub fens: Seq<Seq<char>>,
}

/// The analysis of a game under way.
#[derive(Debug)]
pub struct GameAnalysis {
    /// The position that the game starts from, as the caller wrote it.
    pub fen: String,
    /// The positions to analyse, in the order in which they are analysed.
    pub positions: Vec<AnalysisPosition>,
    /// Whether that order is the game's turned round.
    pub reversed: bool,
    /// Whether the novelty is to be marked.
    pub annotate: bool,
    /// The settings that the engine is given for every position.
    pub uci_options: Vec<EngineOption>,
    /// The index of the position that is analysed next.
    pub next: usize,
    /// The results so far, in the order in which they came.
    pub analysis: Vec<MoveAnalysis>,
    /// The positions of the results so far.
    pub fens: Vec<String>,
}

impl View for GameAnalysis {
    type V = GameAnalysisView;

    open spec fn view(&self) -> GameAnalysisView {
        GameAnalysisView {
            fen: self.fen@,
            positions: position_views(self.positions@),
            reversed: self.reversed,
            annotate: self.annotate,
            uci_options: option_views(self.uci_options@),
            next: self.next,
            analysis: analysis_views(self.analysis@),
            fens: views(self.fens@),
        }
    }
}

/// What the caller is to do next in the analysis of a game, as plain values.
pub enum GameStepView {
    Analyse { progress: u32, options: EngineOptionsView },
    Finished,
}

/// What the caller is to do next in the analysis of a game.
#[derive(Debug, Clone, PartialEq, Eq)]
pub enum GameStep {
    /// Report the progress, in hundredths of a percent, hand the engine the
    /// position and settings, start the search and wait for its last snapshot.
    Analyse { progress: u32, options: EngineOptions },
    /// Every position has been dealt with.
    Finished,
}

impl View for GameStep {
    type V = GameStepView;

    open spec fn view(&self) -> GameStepView {
        match self {
            GameStep::Analyse { progress, options } => GameStepView::Analyse {
                progress: *progress,
                options: options@,
            },
            GameStep::Finished => GameStepView::Finished,
        }
    }
}

impl GameAnalysisView {
    /// The results and their positions go together, and no more positions are
    /// dealt with than there are.
    pub open spec fn wf(self) -> bool {
        self.analysis.len() == self.fens.len() && self.next <= self.positions.len()
    }

    /// What is to be done next.
    pub open spec fn step(self) -> GameStepView {
        if self.next < self.positions.len() {
            GameStepView::Analyse {
                progress: analysis_share(self.next, self.positions.len() as usize) as u32,
                options: EngineOptionsView {
                    fen: self.fen,
                    moves: self.positions[self.next as int].moves,
                    extra_options: self.uci_options,
                },
            }
        } else {
            GameStepView::Finished
        }
    }

    /// The analysis after the engine's last snapshot of the position in hand has come.
    pub open spec fn recorded(self, best: Seq<BestMovesView>) -> GameAnalysisView {
        if self.next < self.positions.len() {
            GameAnalysisView {
                next: (self.next + 1) as usize,
                analysis: self.analysis.push(
                    MoveAnalysisView {
                        best,
                        novelty: false,
                        is_sacrifice: self.positions[self.next as int].is_sacrifice,
                    },
                ),
                fens: self.fens.push(self.positions[self.next as int].fen),
                ..self
            }
        } else {
            self
        }
    }

    /// The analysis after the position in hand was given up.
    pub open spec fn skipped(self) -> GameAnalysisView {
        if self.next < self.positions.len() {
            GameAnalysisView { next: (self.next + 1) as usize, ..self }
        } else {
            self
        }
    }
}

/// Starts the analysis of a game: lists its positions, in the order of the game
/// or turned round, and makes the settings ask for two lines.
///
/// Fails with `MissingReferenceDatabase` where the novelty is to be marked and
/// no reference database is named, with `InvalidPosition` where the starting
/// position cannot be set up, and with `IllegalMove` at the first move that
/// cannot be played.
pub fn analyze_game(options: &AnalysisOptions, uci_options: &Vec<EngineOption>) -> (r: Result<
    GameAnalysis,
    Error,
>)
    ensures
        match r {
            Ok(game) => {
                &&& !(options.annotate_novelties && options.reference_db.is_none())
                &&& analysis_positions(options.fen@, views(options.moves@)) matches Ok(positions)
                &&& game@.positions == ordered(positions, options.reversed)
                &&& game@.fen == options.fen@
                &&& game@.reversed == options.reversed
                &&& game@.annotate == options.annotate_novelties
                &&& game@.uci_options == with_two_lines(option_views(uci_options@), 0)
                &&& game@.next == 0
                &&& game@.analysis.len() == 0
                &&& game@.fens.len() == 0
                &&& game@.wf()
            },
            Err(e) => if options.annotate_novelties && options.reference_db.is_none() {
                e == Error::MissingReferenceDatabase
            } else {
                analysis_positions(options.fen@, views(options.moves@)) == Err::<
                    Seq<AnalysisPositionView>,
                    Error,
                >(e)
            },
        },
{
    match check_reference_db(options) {
        Err(e) => {
            return Err(e);
        },
        Ok(_) => {},
    }
    let listed: Vec<AnalysisPosition> = match build_analysis_positions(options) {
        Ok(p) => p,
        Err(e) => {
            return Err(e);
        },
    };
    let ghost in_order = position_views(listed@);
    let positions: Vec<AnalysisPosition> = if options.reversed {
        let t = turned(listed);
        proof {
            assert(position_views(t@) =~= in_order.reverse());
        }
        t
    } else {
        listed
    };
    let mut settings: Vec<EngineOption> = copy_options(uci_options);
    ensure_multipv_option(&mut settings);
    let game = GameAnalysis {
        fen: options.fen.clone(),
        positions,
        reversed: options.reversed,
        annotate: options.annotate_novelties,
        uci_options: settings,
        next: 0,
        analysis: Vec::new(),
        fens: Vec::new(),
    };
    Ok(game)
}

impl GameAnalysis {
    /// Says what is to be done next.
    pub fn step(&self) -> (r: GameStep)
        ensures
            r@ == self@.step(),
    {
        if self.next < self.positions.len() {
            assert(position_views(self.positions@)[self.next as int] == self.positions@[self.next as int]@);
            GameStep::Analyse {
                progress: analysis_progress(self.next, self.positions.len()),
                options: EngineOptions {
                    fen: self.fen.clone(),
                    moves: copy_strings(&self.positions[self.next].moves),
                    extra_options: copy_options(&self.uci_options),
                },
            }
        } else {
            GameStep::Finished
        }
    }

    /// Says how far the analysis has come, for the front end: the share of the
    /// positions that are dealt with, and, once all of them are, that the analysis
    /// is finished at 100%. It is reported before each position and at the end.
    pub fn report(&self, id: &str) -> (r: ReportProgress)
        ensures
            r.id@ == id@,
            r.progress == analysis_share(self@.next, self@.positions.len() as usize),
            r.finished == (self@.next >= self@.positions.len()),
            r.finished ==> r.progress == 10000,
    {
        ReportProgress {
            progress: analysis_progress(self.next, self.positions.len()),
            id: String::from_str(id),
            finished: self.next >= self.positions.len(),
        }
    }

    /// Takes the engine's last snapshot of the position in hand and goes on to the next.
    pub fn record(&mut self, best: Vec<BestMoves>)
        ensures
            final(self)@ == old(self)@.recorded(line_views(best@)),
            old(self)@.wf() ==> final(self)@.wf(),
    {
        if self.next < self.positions.len() {
            assert(position_views(self.positions@)[self.next as int] == self.positions@[self.next as int]@);
            let ghost results = analysis_views(self.analysis@);
            let ghost places = views(self.fens@);
            let entry = MoveAnalysis {
                best,
                novelty: false,
                is_sacrifice: self.positions[self.next].is_sacrifice,
            };
            let place: String = self.positions[self.next].fen.clone();
            self.analysis.push(entry);
            self.fens.push(place);
            self.next = self.next + 1;
            proof {
                assert(analysis_views(self.analysis@) =~= results.push(entry@));
                assert(views(self.fens@) =~= places.push(place@));
            }
        }
    }

    /// Gives up the position in hand, of which there will be no result, and goes
    /// on to the next.
    pub fn skip(&mut self)
        ensures
            final(self)@ == old(self)@.skipped(),
            old(self)@.wf() ==> final(self)@.wf(),
    {
        if self.next < self.positions.len() {
            self.next = self.next + 1;
        }
    }

    /// Ends the analysis: gives the results in the order of the game, and the
    /// position of each.
    pub fn finish(self) -> (r: (Vec<MoveAnalysis>, Vec<String>))
        ensures
            analysis_views(r.0@) == ordered(self@.analysis, self@.reversed),
            views(r.1@) == ordered(self@.fens, self@.reversed),
    {
        let ghost results = analysis_views(self.analysis@);
        let ghost places = views(self.fens@);
        if self.reversed {
            let a = turned(self.analysis);
            let f = turned(self.fens);
            proof {
                assert(analysis_views(a@) =~= results.reverse());
                assert(views(f@) =~= places.reverse());
            }
            (a, f)
        } else {
            (self.analysis, self.fens)
        }
    }
}

/// Whether the position at index `k` is the novelty of a game: the reference
/// database knows every position before it, and does not know this one.
/// `known` holds the database's answers, position by position.
pub open spec fn novelty_at(known: Seq<bool>, k: int) -> bool {
    &&& 0 <= k < known.len()
    &&& !known[k]
    &&& forall|j: int| 0 <= j < k ==> known[j]
}

/// A game has one novelty at most, and the database knows every position before it.
pub proof fn lemma_novelty_unique(known: Seq<bool>, i: int, j: int)
    requires
        novelty_at(known, i),
        novelty_at(known, j),
    ensures
        i == j,
        forall|k: int| 0 <= k < i ==> known[k],
{
}

/// Whether the database is still to be asked about a position, and about which:
/// the one after those in `known`, as long as it knew them all and positions are left.
pub open spec fn next_query(known: Seq<bool>, total: usize) -> Option<usize> {
    if known.len() < total && (forall|j: int| 0 <= j < known.len() ==> known[j]) {
        Some(known.len() as usize)
    } else {
        None
    }
}

fn all_known(known: &Vec<bool>) -> (r: bool)
    ensures
        r == (forall|j: int| 0 <= j < known@.len() ==> known@[j]),
{
    let mut i: usize = 0;
    while i < known.len()
        invariant
            i <= known.len(),
            forall|j: int| 0 <= j < i ==> known@[j],
        decreases known.len() - i,
    {
        if !known[i] {
            return false;
        }
        i = i + 1;
    }
    true
}

/// Says which position the reference database is to be asked about next, if any.
/// After the first position that it does not know, no more is asked.
pub fn novelty_query(known: &Vec<bool>, total: usize) -> (r: Option<usize>)
    ensures
        r == next_query(known@, total),
{
    if known.len() < total && all_known(known) {
        Some(known.len())
    } else {
        None
    }
}

/// Marks the novelty of a game: of the results, in the order of the game, the
/// first whose position the reference database does not know.
pub fn annotate_novelties(results: &mut Vec<MoveAnalysis>, known: &Vec<bool>)
    ensures
        final(results)@.len() == old(results)@.len(),
        forall|k: int|
            0 <= k < final(results)@.len() ==> (#[trigger] final(results)@[k]).novelty
                == novelty_at(known@, k) && final(results)@[k].best == old(results)@[k].best
                && final(results)@[k].is_sacrifice == old(results)@[k].is_sacrifice,
{
    let mut i: usize = 0;
    let mut before_known: bool = true;
    while i < results.len()
        invariant
            i <= results@.len(),
            results@.len() == old(results)@.len(),
            before_known == (forall|j: int| 0 <= j < i && j < known@.len() ==> known@[j]),
            forall|k: int|
                0 <= k < i ==> (#[trigger] results@[k]).novelty == novelty_at(known@, k)
                    && results@[k].best == old(results)@[k].best && results@[k].is_sacrifice
                    == old(results)@[k].is_sacrifice,
            forall|k: int| i <= k < results@.len() ==> results@[k] == old(results)@[k],
        decreases results@.len() - i,
    {
        let here: bool = i < known.len() && !known[i];
        results[i].novelty = here && before_known;
        if here {
            before_known = false;
        }
        i = i + 1;
    }
}

/// Fails with `MissingReferenceDatabase` where the novelty is to be marked and
/// no reference database is named.
pub fn check_reference_db(options: &AnalysisOptions) -> (r: Result<(), Error>)
    ensures
        match r {
            Ok(_) => !(options.annotate_novelties && options.reference_db.is_none()),
            Err(e) => options.annotate_novelties && options.reference_db.is_none() && e
                == Error::MissingReferenceDatabase,
        },
{
    if options.annotate_novelties && options.reference_db.is_none() {
        Err(Error::MissingReferenceDatabase)
    } else {
        Ok(())
    }
}

} // verus!
