//! The state of one engine session: what the engine was last told, what it has
//! said since, and what of that has been sent on.
//!
//! The session does no input or output of its own. Each of its operations takes
//! what has happened (a request, a line of the engine, a tick of the timer, the
//! time) and gives back what is to be done: the commands to write to the engine,
//! the payload to send to the front end.

use vstd::prelude::*;
use vstd::string::*;
use crate::board::{game_over, is_game_over, legal_moves, list_moves};
use crate::command::{
    format_go_command, go_text, position_command, position_text, quit_command,
    setoption_command, setoption_text, stop_command,
};
use crate::error::Error;
use crate::info::{line_from_info, line_of};
use crate::message::{parse_line, parsed, InfoLine, Message, MessageView};
use crate::progress::{calculate_progress, lemma_progress_bounds, progress_of, FINISHED};
use crate::replay::{replay, replayed};
use crate::scheduler::{elapsed, Scheduler, Verdict, MAX_EVENT_INTERVAL};
use crate::text::{copy_strings, is_word, parse_bounded, read_u16, same_strings, views};
use crate::types::{
    all_at_depth, all_sound, copy_lines, copy_logs, line_views, log_views, option_views,
    push_line, push_log, recorded, recorded_all, same_depth, BestMoves, BestMovesPayload, BestMovesPayloadView,
    BestMovesView, EngineLog, EngineLogView, EngineOption, EngineOptions, EngineOptionsView,
    GoMode,
};

verus! {

/// A session as plain values.
pub struct EngineProcessView {
    pub id: Seq<char>,
    pub tab: Seq<char>,
    pub options: EngineOptionsView,
    pub position: Seq<char>,
    pub go_mode: GoMode,
    pub running: bool,
    pub crashed: bool,
    pub real_multipv: u16,
    pub best_moves: Seq<BestMovesView>,
    pub last_best_moves: Seq<BestMovesView>,
    pub last_depth: u32,
    pub last_progress: u32,
    pub scheduler: Scheduler,
    pub start: u64,
    pub last_line_at: u64,
    pub logs: Seq<EngineLogView>,
}

/// One engine session.
#[derive(Debug)]
pub struct EngineProcess {
    /// The caller's name for the engine, handed back in every payload.
    pub id: String,
    pub tab: String,
    /// The position and settings that the engine was last given.
    pub options: EngineOptions,
    /// The position under study: the one that `options` leads to.
    pub position: String,
    /// How the engine was last told to search.
    pub go_mode: GoMode,
    /// Whether a search is under way.
    pub running: bool,
    /// Whether the engine has been found dead.
    pub crashed: bool,
    /// How many lines a snapshot has: what was asked for, but no more than
    /// the position has legal moves.
    pub real_multipv: u16,
    /// The lines of the snapshot that is being put together.
    pub best_moves: Vec<BestMoves>,
    /// The last complete snapshot.
    pub last_best_moves: Vec<BestMoves>,
    /// The depth of the last complete snapshot.
    pub last_depth: u32,
    /// How far the search had come at the last complete snapshot, in hundredths of a percent.
    pub last_progress: u32,
    pub scheduler: Scheduler,
    /// When the search was started.
    pub start: u64,
    /// When the engine was last heard from, or told to search.
    pub last_line_at: u64,
    /// The dialogue with the engine so far.
    pub logs: Vec<EngineLog>,
}

impl View for EngineProcess {
    type V = EngineProcessView;

    open spec fn view(&self) -> EngineProcessView {
        EngineProcessView {
            id: self.id@,
            tab: self.tab@,
            options: self.options@,
            position: self.position@,
            go_mode: self.go_mode,
            running: self.running,
            crashed: self.crashed,
            real_multipv: self.real_multipv,
            best_moves: line_views(self.best_moves@),
            last_best_moves: line_views(self.last_best_moves@),
            last_depth: self.last_depth,
            last_progress: self.last_progress,
            scheduler: self.scheduler,
            start: self.start,
            last_line_at: self.last_line_at,
            logs: log_views(self.logs@),
        }
    }
}

/// How long a searching engine may stay silent before it is given up, in milliseconds.
pub const SILENCE_LIMIT: u64 = 60000;

/// Why a session's loop is to end.
#[derive(Debug, Clone, Copy, PartialEq, Eq, Structural)]
pub enum Overdue {
    /// The engine is dead.
    Crashed,
    /// The engine has been silent for too long.
    Silent,
    /// The search has gone on for longer than its mode allows.
    OverTime,
}

/// How long a search may go on beyond the time that its mode gives it, in milliseconds.
pub const BUDGET_GRACE: u64 = 5000;

/// The time that a search in `mode` may take at most, for the modes that carry a
/// time: the time to think, or the larger of the two clocks, and `BUDGET_GRACE` on top.
pub open spec fn time_budget(mode: GoMode) -> Option<nat> {
    match mode {
        GoMode::Time(t) => Some((t + BUDGET_GRACE) as nat),
        GoMode::PlayersTime(p) => Some(
            (if p.white >= p.black {
                p.white
            } else {
                p.black
            } + BUDGET_GRACE) as nat,
        ),
        _ => None,
    }
}

/// What `go` says where the engine is dead.
pub open spec fn crashed_detail() -> Seq<char> {
    "engine has crashed"@
}

/// What `go` and `set_options` say where the game has ended.
pub open spec fn game_over_detail() -> Seq<char> {
    "game is over"@
}

/// Whether `e` is the refusal of an operation for the state the session is in.
pub open spec fn state_error(e: Error, detail: Seq<char>) -> bool {
    (e is InvalidEngineState) && e.detail() == detail
}

impl EngineProcessView {
    /// The session's invariant.
    ///
    /// The snapshot under way holds the lines 1, 2, ... in order, fewer than a whole
    /// snapshot has. The last complete snapshot, where there is one, has exactly
    /// `real_multipv` lines, all sound and all at `last_depth`. Nothing deeper than
    /// `last_depth` has been sent, and what waits to be sent is the last snapshot.
    /// No search is under way on a dead engine. Once the session has a position,
    /// it is the one that its options lead to, and they were accepted.
    pub open spec fn wf(self) -> bool {
        &&& self.best_moves.len() <= self.real_multipv
        &&& (self.real_multipv > 0 ==> self.best_moves.len() < self.real_multipv)
        &&& forall|k: int|
            0 <= k < self.best_moves.len() ==> (#[trigger] self.best_moves[k]).multipv == k + 1
        &&& all_sound(self.best_moves)
        &&& (self.last_best_moves.len() == 0 || self.last_best_moves.len() == self.real_multipv)
        &&& all_at_depth(self.last_best_moves, self.last_depth)
        &&& all_sound(self.last_best_moves)
        &&& self.last_progress <= FINISHED
        &&& self.scheduler.wf()
        &&& self.scheduler.emitted_depth <= self.last_depth
        &&& (self.scheduler.pending ==> self.last_best_moves.len() > 0
            && self.scheduler.emitted_depth == self.last_depth)
        &&& (self.running ==> !self.crashed)
        &&& (self.real_multipv >= 1 ==> EngineProcessView::options_outcome(self.options) == Ok::<
            (Seq<char>, u16),
            OptionsRefusal,
        >((self.position, self.real_multipv)))
    }

    /// The payload that carries a snapshot of this session.
    pub open spec fn payload(self, lines: Seq<BestMovesView>, progress: u32) -> BestMovesPayloadView {
        BestMovesPayloadView {
            best_lines: lines,
            engine: self.id,
            tab: self.tab,
            fen: self.options.fen,
            moves: self.options.moves,
            progress,
        }
    }

    /// What a request for the same search as the one under way is answered with:
    /// how far the search has come and its last snapshot. `None` where the request
    /// asks for something else, or no search is under way.
    pub open spec fn reuse(self, go_mode: GoMode, options: EngineOptionsView) -> Option<
        (u32, Seq<BestMovesView>),
    > {
        if options == self.options && go_mode == self.go_mode && self.running {
            Some((self.last_progress, self.last_best_moves))
        } else {
            None
        }
    }

    /// The session after `stop`.
    pub open spec fn stopped(self) -> EngineProcessView {
        if self.running {
            EngineProcessView {
                running: false,
                logs: recorded(self.logs, EngineLogView::Gui("stop\n"@)),
                ..self
            }
        } else {
            self
        }
    }

    /// The session after `kill`.
    pub open spec fn killed(self) -> EngineProcessView {
        EngineProcessView {
            running: false,
            logs: recorded(self.logs, EngineLogView::Gui("quit\n"@)),
            ..self
        }
    }

    /// Why `go` is refused, where it is.
    pub open spec fn go_refusal(self) -> Option<Seq<char>> {
        if self.crashed {
            Some(crashed_detail())
        } else if game_over(self.position) {
            Some(game_over_detail())
        } else {
            None
        }
    }

    /// The session after a search in `mode` was started at time `now`.
    pub open spec fn started(self, mode: GoMode, now: u64) -> EngineProcessView {
        EngineProcessView {
            go_mode: mode,
            running: true,
            start: now,
            last_line_at: now,
            scheduler: Scheduler { last_emit_at: None, pending: false, ..self.scheduler },
            logs: recorded(self.logs, EngineLogView::Gui(go_text(mode))),
            ..self
        }
    }
}

impl EngineProcess {
    /// The session of an engine that has just answered the handshake, at time `now`;
    /// `logs` holds the handshake.
    pub fn new(id: String, tab: String, logs: Vec<EngineLog>, now: u64) -> (r: EngineProcess)
        ensures
            r@.wf(),
            r@.id == id@,
            r@.tab == tab@,
            r@.logs == log_views(logs@),
            !r@.running,
            !r@.crashed,
            r@.real_multipv == 0,
            r@.go_mode == GoMode::Infinite,
            r@.last_depth == 0,
            r@.last_progress == 0,
            r@.best_moves.len() == 0,
            r@.last_best_moves.len() == 0,
            r@.options.fen.len() == 0,
            r@.options.moves.len() == 0,
            r@.options.extra_options.len() == 0,
            r@.position.len() == 0,
            r@.scheduler == Scheduler::fresh(),
            r@.start == now,
            r@.last_line_at == now,
    {
        EngineProcess {
            id,
            tab,
            options: EngineOptions::empty(),
            position: String::new(),
            go_mode: GoMode::Infinite,
            running: false,
            crashed: false,
            real_multipv: 0,
            best_moves: Vec::new(),
            last_best_moves: Vec::new(),
            last_depth: 0,
            last_progress: 0,
            scheduler: Scheduler::new(),
            start: now,
            last_line_at: now,
            logs,
        }
    }

    /// Notes that the engine has been found dead: no search can be started any more.
    pub fn mark_crashed(&mut self)
        ensures
            final(self)@ == (EngineProcessView { crashed: true, running: false, ..old(self)@ }),
            old(self)@.wf() ==> final(self)@.wf(),
    {
        self.crashed = true;
        self.running = false;
    }

    /// Answers a request from what the session already has, where the request asks
    /// for the very search that is under way. Nothing is sent to the engine.
    pub fn reuse(&self, go_mode: &GoMode, options: &EngineOptions) -> (r: Option<
        (u32, Vec<BestMoves>),
    >)
        ensures
            match r {
                Some(cached) => self@.reuse(*go_mode, options@) == Some(
                    (cached.0, line_views(cached.1@)),
                ),
                None => self@.reuse(*go_mode, options@).is_none(),
            },
    {
        if options.equals(&self.options) && *go_mode == self.go_mode && self.running {
            Some((self.last_progress, copy_lines(&self.last_best_moves)))
        } else {
            None
        }
    }

    /// Ends the search, where one is under way: gives the command to send, if any.
    pub fn stop(&mut self) -> (command: Option<String>)
        ensures
            final(self)@ == old(self)@.stopped(),
            match command {
                Some(c) => old(self)@.running && c@ == "stop\n"@,
                None => !old(self)@.running,
            },
            old(self)@.wf() ==> final(self)@.wf(),
    {
        if self.running {
            let c = stop_command();
            push_log(&mut self.logs, EngineLog::Gui(c.clone()));
            self.running = false;
            Some(c)
        } else {
            None
        }
    }

    /// Ends the engine: gives the command to send before the process is killed.
    pub fn kill(&mut self) -> (command: String)
        ensures
            final(self)@ == old(self)@.killed(),
            command@ == "quit\n"@,
            old(self)@.wf() ==> final(self)@.wf(),
    {
        let c = quit_command();
        push_log(&mut self.logs, EngineLog::Gui(c.clone()));
        self.running = false;
        c
    }

    /// Starts a search at time `now`: gives the command to send.
    ///
    /// Refused with `InvalidEngineState` where the engine is dead or the game has
    /// ended in the position under study; the session is then left as it was.
    pub fn go(&mut self, mode: &GoMode, now: u64) -> (r: Result<String, Error>)
        ensures
            match r {
                Ok(c) => {
                    &&& old(self)@.go_refusal().is_none()
                    &&& c@ == go_text(*mode)
                    &&& final(self)@ == old(self)@.started(*mode, now)
                },
                Err(e) => {
                    &&& old(self)@.go_refusal().is_some()
                    &&& state_error(e, old(self)@.go_refusal().unwrap())
                    &&& final(self)@ == old(self)@
                },
            },
            old(self)@.wf() ==> final(self)@.wf(),
    {
        if self.crashed {
            return Err(Error::InvalidEngineState(String::from_str("engine has crashed")));
        }
        if is_game_over(self.position.as_str()) {
            return Err(Error::InvalidEngineState(String::from_str("game is over")));
        }
        let c = format_go_command(mode);
        push_log(&mut self.logs, EngineLog::Gui(c.clone()));
        self.go_mode = *mode;
        self.running = true;
        self.start = now;
        self.last_line_at = now;
        self.scheduler.restart();
        Ok(c)
    }

    /// Says at a tick of the timer whether the session's loop is to end, and why:
    /// with `EngineCrashed` where the engine is dead, with `EngineUnresponsive`
    /// where it has been silent for too long during a search, with
    /// `EngineTimeout` where the search has outrun the time budget of its mode.
    pub fn watchdog(&self, now: u64) -> (r: Option<Error>)
        ensures
            match self@.overdue(now) {
                Some(Overdue::Crashed) => r matches Some(e) && (e is EngineCrashed) && e.detail()
                    == crashed_detail(),
                Some(Overdue::Silent) => r == Some(Error::EngineUnresponsive),
                Some(Overdue::OverTime) => r == Some(Error::EngineTimeout),
                None => r.is_none(),
            },
    {
        let silent: u64 = if now >= self.last_line_at {
            now - self.last_line_at
        } else {
            0
        };
        let spent: u64 = if now >= self.start {
            now - self.start
        } else {
            0
        };
        let budget: Option<u64> = match self.go_mode {
            GoMode::Time(t) => Some(t as u64 + BUDGET_GRACE),
            GoMode::PlayersTime(p) => Some(
                if p.white >= p.black {
                    p.white as u64 + BUDGET_GRACE
                } else {
                    p.black as u64 + BUDGET_GRACE
                },
            ),
            _ => None,
        };
        if self.crashed {
            Some(Error::EngineCrashed(String::from_str("engine has crashed")))
        } else if self.running && silent >= SILENCE_LIMIT {
            Some(Error::EngineUnresponsive)
        } else if self.running && budget.is_some() && spent > budget.unwrap() {
            Some(Error::EngineTimeout)
        } else {
            None
        }
    }

    /// A copy of the dialogue with the engine so far.
    pub fn get_engine_logs(&self) -> (r: Vec<EngineLog>)
        ensures
            log_views(r@) == self@.logs,
    {
        copy_logs(&self.logs)
    }
}


/// Why a position and settings are refused.
pub enum OptionsRefusal {
    /// The position cannot be reached: `InvalidPosition` or `IllegalMove`.
    Position(Error),
    /// The game has ended in the position.
    GameOver,
    /// The `MultiPV` setting holds this, which is no number.
    MultiPv(Seq<char>),
}

/// Whether `e` is the error that reports the refusal `r`.
pub open spec fn reports(e: Error, r: OptionsRefusal) -> bool {
    match r {
        OptionsRefusal::Position(p) => e == p,
        OptionsRefusal::GameOver => state_error(e, game_over_detail()),
        OptionsRefusal::MultiPv(v) => (e is InvalidMultiPvValue) && e.detail() == v,
    }
}

/// How many lines the settings from index `i` on ask for: the number that the first
/// `MultiPV` setting holds, one where it holds zero or where there is no such
/// setting. Where the setting holds no number, the text that it holds.
pub open spec fn multipv_request(opts: Seq<(Seq<char>, Seq<char>)>, i: int) -> Result<
    u16,
    Seq<char>,
>
    decreases opts.len() - i,
{
    if i < 0 || i >= opts.len() {
        Ok(1)
    } else if opts[i].0 == "MultiPV"@ {
        match parse_bounded(opts[i].1, u16::MAX as nat) {
            Some(v) => Ok(
                if v == 0 {
                    1
                } else {
                    v as u16
                },
            ),
            None => Err(opts[i].1),
        }
    } else {
        multipv_request(opts, i + 1)
    }
}

/// The lines asked for, but no more than there are legal moves.
pub open spec fn clamped(requested: u16, legal: nat) -> u16 {
    if legal < requested {
        legal as u16
    } else {
        requested
    }
}

/// The commands that set the settings of `new` from index `i` on that `current`
/// does not hold already, after `acc`.
pub open spec fn option_commands(
    new: Seq<(Seq<char>, Seq<char>)>,
    current: Seq<(Seq<char>, Seq<char>)>,
    i: int,
    acc: Seq<Seq<char>>,
) -> Seq<Seq<char>>
    decreases new.len() - i,
{
    if i < 0 || i >= new.len() {
        acc
    } else if current.contains(new[i]) {
        option_commands(new, current, i + 1, acc)
    } else {
        option_commands(new, current, i + 1, acc.push(setoption_text(new[i].0, new[i].1)))
    }
}

/// The record of commands that were sent.
pub open spec fn gui_logs(commands: Seq<Seq<char>>) -> Seq<EngineLogView> {
    Seq::new(commands.len(), |i: int| EngineLogView::Gui(commands[i]))
}

impl EngineProcessView {
    /// What a position and settings come to: the position under study and the
    /// number of lines of a snapshot, or why they are refused.
    pub open spec fn options_outcome(new: EngineOptionsView) -> Result<
        (Seq<char>, u16),
        OptionsRefusal,
    > {
        match replayed(new.fen, new.moves) {
            Err(e) => Err(OptionsRefusal::Position(e)),
            Ok(pos) => if game_over(pos) || legal_moves(pos).len() == 0 {
                Err(OptionsRefusal::GameOver)
            } else {
                match multipv_request(new.extra_options, 0) {
                    Err(v) => Err(OptionsRefusal::MultiPv(v)),
                    Ok(requested) => Ok((pos, clamped(requested, legal_moves(pos).len()))),
                }
            },
        }
    }

    /// The commands that bring the engine from what it was last given to `new`:
    /// one for each setting of `new` that it was not given, in their order, then
    /// the position where the starting position or the moves differ.
    pub open spec fn option_changes(self, new: EngineOptionsView) -> Seq<Seq<char>> {
        let settings = option_commands(
            new.extra_options,
            self.options.extra_options,
            0,
            Seq::empty(),
        );
        if new.fen != self.options.fen || new.moves != self.options.moves {
            settings.push(position_text(new.fen, new.moves))
        } else {
            settings
        }
    }

    /// The session after it was given `new`, which leads to the position `pos`
    /// and to snapshots of `width` lines: what was assembled so far is forgotten.
    pub open spec fn configured(self, new: EngineOptionsView, pos: Seq<char>, width: u16) -> EngineProcessView {
        EngineProcessView {
            options: new,
            position: pos,
            real_multipv: width,
            last_depth: 0,
            best_moves: Seq::empty(),
            last_best_moves: Seq::empty(),
            scheduler: Scheduler { emitted_depth: 0, pending: false, ..self.scheduler },
            logs: recorded_all(self.logs, gui_logs(self.option_changes(new)), 0),
            ..self
        }
    }
}

fn has_option(current: &Vec<EngineOption>, wanted: &EngineOption) -> (r: bool)
    ensures
        r == option_views(current@).contains(wanted@),
{
    let mut i: usize = 0;
    while i < current.len()
        invariant
            i <= current.len(),
            forall|j: int| 0 <= j < i ==> option_views(current@)[j] != wanted@,
        decreases current.len() - i,
    {
        if current[i].equals(wanted) {
            assert(option_views(current@)[i as int] == wanted@);
            return true;
        }
        i = i + 1;
    }
    false
}

/// Reads how many lines the settings ask for.
pub fn requested_multipv(options: &Vec<EngineOption>) -> (r: Result<u16, Error>)
    ensures
        match r {
            Ok(n) => multipv_request(option_views(options@), 0) == Ok::<u16, Seq<char>>(n) && n
                >= 1,
            Err(e) => (e is InvalidMultiPvValue) && multipv_request(option_views(options@), 0)
                == Err::<u16, Seq<char>>(e.detail()),
        },
{
    let mut i: usize = 0;
    while i < options.len()
        invariant
            i <= options.len(),
            multipv_request(option_views(options@), i as int) == multipv_request(
                option_views(options@),
                0,
            ),
        decreases options.len() - i,
    {
        assert(option_views(options@)[i as int] == options@[i as int]@);
        if is_word(&options[i].name, "MultiPV") {
            return match read_u16(options[i].value.as_str()) {
                Some(v) => Ok(
                    if v == 0 {
                        1
                    } else {
                        v
                    },
                ),
                None => Err(Error::InvalidMultiPvValue(options[i].value.clone())),
            };
        }
        i = i + 1;
    }
    Ok(1)
}

fn clamp_multipv(requested: u16, legal: usize) -> (r: u16)
    ensures
        r == clamped(requested, legal as nat),
{
    if legal < requested as usize {
        legal as u16
    } else {
        requested
    }
}

fn changed_option_commands(new: &Vec<EngineOption>, current: &Vec<EngineOption>) -> (r: Vec<
    String,
>)
    ensures
        views(r@) == option_commands(option_views(new@), option_views(current@), 0, Seq::empty()),
{
    let mut r: Vec<String> = Vec::new();
    let mut i: usize = 0;
    assert(views(r@) =~= Seq::<Seq<char>>::empty());
    while i < new.len()
        invariant
            i <= new.len(),
            option_commands(option_views(new@), option_views(current@), i as int, views(r@))
                == option_commands(option_views(new@), option_views(current@), 0, Seq::empty()),
        decreases new.len() - i,
    {
        assert(option_views(new@)[i as int] == new@[i as int]@);
        if !has_option(current, &new[i]) {
            let ghost before = views(r@);
            let c = setoption_command(new[i].name.as_str(), new[i].value.as_str());
            r.push(c);
            assert(views(r@) =~= before.push(c@));
        }
        i = i + 1;
    }
    r
}

fn log_commands(logs: &mut Vec<EngineLog>, commands: &Vec<String>)
    ensures
        log_views(final(logs)@) == recorded_all(
            log_views(old(logs)@),
            gui_logs(views(commands@)),
            0,
        ),
{
    let mut i: usize = 0;
    while i < commands.len()
        invariant
            i <= commands.len(),
            recorded_all(log_views(logs@), gui_logs(views(commands@)), i as int) == recorded_all(
                log_views(old(logs)@),
                gui_logs(views(commands@)),
                0,
            ),
        decreases commands.len() - i,
    {
        assert(gui_logs(views(commands@))[i as int] == EngineLogView::Gui(commands@[i as int]@));
        push_log(logs, EngineLog::Gui(commands[i].clone()));
        i = i + 1;
    }
}

impl EngineProcess {
    /// Gives the session a position and settings: says which commands are to be
    /// sent to the engine, in order, and forgets what was assembled so far.
    ///
    /// Refused, with the session left as it was: with `InvalidPosition` or
    /// `IllegalMove` where the position cannot be reached, with
    /// `InvalidEngineState` where the game has ended in it, with
    /// `InvalidMultiPvValue` where the `MultiPV` setting holds no number.
    pub fn set_options(&mut self, options: EngineOptions) -> (r: Result<Vec<String>, Error>)
        ensures
            match r {
                Ok(commands) => {
                    &&& EngineProcessView::options_outcome(options@) matches Ok(outcome)
                    &&& views(commands@) == old(self)@.option_changes(options@)
                    &&& final(self)@ == old(self)@.configured(options@, outcome.0, outcome.1)
                    &&& final(self)@.real_multipv >= 1
                },
                Err(e) => {
                    &&& EngineProcessView::options_outcome(options@) matches Err(refusal)
                    &&& reports(e, refusal)
                    &&& final(self)@ == old(self)@
                },
            },
            old(self)@.wf() ==> final(self)@.wf(),
    {
        let pos: String = match replay(options.fen.as_str(), &options.moves) {
            Ok(p) => p,
            Err(e) => {
                return Err(e);
            },
        };
        let legal: usize = list_moves(pos.as_str()).len();
        if is_game_over(pos.as_str()) || legal == 0 {
            return Err(Error::InvalidEngineState(String::from_str("game is over")));
        }
        let requested: u16 = match requested_multipv(&options.extra_options) {
            Ok(n) => n,
            Err(e) => {
                return Err(e);
            },
        };
        let width: u16 = clamp_multipv(requested, legal);
        let mut commands: Vec<String> = changed_option_commands(
            &options.extra_options,
            &self.options.extra_options,
        );
        if options.fen != self.options.fen || !same_strings(&options.moves, &self.options.moves) {
            let ghost before = views(commands@);
            let c = position_command(options.fen.as_str(), &options.moves);
            commands.push(c);
            assert(views(commands@) =~= before.push(c@));
        }
        log_commands(&mut self.logs, &commands);
        self.real_multipv = width;
        self.last_depth = 0;
        self.best_moves = Vec::new();
        self.last_best_moves = Vec::new();
        self.scheduler.forget();
        self.options = options;
        self.position = pos;
        proof {
            assert(line_views(self.best_moves@) =~= Seq::<BestMovesView>::empty());
            assert(line_views(self.last_best_moves@) =~= Seq::<BestMovesView>::empty());
        }
        Ok(commands)
    }
}


impl EngineProcessView {
    /// Whether a line is the next one of the snapshot under way.
    pub open spec fn accepts(self, line: BestMovesView) -> bool {
        line.multipv == self.best_moves.len() + 1 && line.multipv <= self.real_multipv
    }

    /// Whether a line completes a snapshot: it is the last line of the snapshot
    /// under way, all lines of it have the same depth, and that depth is no less
    /// than the depth of the snapshot before.
    pub open spec fn completes(self, line: BestMovesView) -> bool {
        &&& self.accepts(line)
        &&& line.multipv == self.real_multipv
        &&& all_at_depth(self.best_moves.push(line), line.depth)
        &&& line.depth >= self.last_depth
    }

    /// How far the search has come when `line` completes a snapshot at time `now`.
    pub open spec fn progress_at(self, line: BestMovesView, now: u64) -> u32 {
        progress_of(self.go_mode, line.depth, line.nodes, elapsed(self.start, now) as u64) as u32
    }

    /// The session after a line of the engine at time `now`.
    ///
    /// A line that is not the next one of the snapshot under way is dropped. The
    /// last line of a snapshot ends it: where the snapshot is complete it becomes
    /// the last snapshot and goes to the scheduler, and either way a new one begins.
    pub open spec fn absorbed(self, line: BestMovesView, now: u64) -> EngineProcessView {
        if !self.accepts(line) {
            self
        } else if line.multipv != self.real_multipv {
            EngineProcessView { best_moves: self.best_moves.push(line), ..self }
        } else if self.completes(line) {
            EngineProcessView {
                best_moves: Seq::empty(),
                last_best_moves: self.best_moves.push(line),
                last_depth: line.depth,
                last_progress: self.progress_at(line, now),
                scheduler: self.scheduler.offered(line.depth, now),
                ..self
            }
        } else {
            EngineProcessView { best_moves: Seq::empty(), ..self }
        }
    }

    /// What a line of the engine at time `now` makes the session send.
    pub open spec fn emitted(self, line: BestMovesView, now: u64) -> Option<BestMovesPayloadView> {
        if self.completes(line) && self.scheduler.emits(line.depth, now) {
            Some(self.payload(self.best_moves.push(line), self.progress_at(line, now)))
        } else {
            None
        }
    }

    /// Whether a line of the engine at time `now` completes a snapshot that waits
    /// on the rate limiter: the caller is to ask it and hand on its answer.
    pub open spec fn asks(self, line: BestMovesView, now: u64) -> bool {
        self.completes(line) && self.scheduler.verdict(line.depth, now) == Verdict::Ask
    }

    /// What an analysis line at time `now` comes to.
    pub open spec fn settled(self, line: BestMovesView, now: u64) -> LineOutcomeView {
        match self.emitted(line, now) {
            Some(p) => LineOutcomeView::Emit(p),
            None => if self.asks(line, now) {
                LineOutcomeView::Ask
            } else {
                LineOutcomeView::Ignored
            },
        }
    }

    /// The session after the rate limiter has answered at time `now`.
    pub open spec fn answered(self, admitted: bool, now: u64) -> EngineProcessView {
        EngineProcessView { scheduler: self.scheduler.answered(admitted, now), ..self }
    }

    /// What the answer of the rate limiter at time `now` makes the session send:
    /// the last snapshot, where it waits, the limiter has said yes, and enough
    /// time has passed since the last one was sent.
    pub open spec fn released(self, admitted: bool, now: u64) -> Option<BestMovesPayloadView> {
        if self.scheduler.releases(admitted, now) {
            Some(self.payload(self.last_best_moves, self.last_progress))
        } else {
            None
        }
    }

    /// The session after a tick of the timer at time `now`.
    pub open spec fn ticked(self, now: u64) -> EngineProcessView {
        EngineProcessView { scheduler: self.scheduler.ticked(now), ..self }
    }

    /// What a tick of the timer at time `now` makes the session send: the last
    /// snapshot, where it waits and has waited long enough.
    pub open spec fn flushed(self, now: u64) -> Option<BestMovesPayloadView> {
        if self.scheduler.flushes(now) {
            Some(self.payload(self.last_best_moves, self.last_progress))
        } else {
            None
        }
    }

    /// The session after the engine has named its best move.
    pub open spec fn finished(self) -> EngineProcessView {
        EngineProcessView {
            running: false,
            last_progress: FINISHED,
            scheduler: Scheduler { pending: false, ..self.scheduler },
            ..self
        }
    }

    /// What is sent when the engine has named its best move: the last snapshot, at 100%.
    pub open spec fn final_payload(self) -> BestMovesPayloadView {
        self.payload(self.last_best_moves, FINISHED)
    }

    /// The session with a line of the engine, which came at time `now`, added to its record.
    pub open spec fn logged(self, line: Seq<char>, now: u64) -> EngineProcessView {
        EngineProcessView {
            logs: recorded(self.logs, EngineLogView::Engine(line)),
            last_line_at: now,
            ..self
        }
    }

    /// Why the session's loop is to end at time `now`, where it is: the engine is
    /// dead, or a search is under way and the engine has been silent for
    /// `SILENCE_LIMIT`, or the search has gone on for longer than the time budget
    /// of its mode.
    pub open spec fn overdue(self, now: u64) -> Option<Overdue> {
        if self.crashed {
            Some(Overdue::Crashed)
        } else if self.running && elapsed(self.last_line_at, now) >= SILENCE_LIMIT {
            Some(Overdue::Silent)
        } else if self.running && time_budget(self.go_mode).is_some() && elapsed(self.start, now)
            > time_budget(self.go_mode).unwrap() {
            Some(Overdue::OverTime)
        } else {
            None
        }
    }
}

/// What a line of the engine has come to, as plain values.
pub enum LineOutcomeView {
    Ignored,
    Skipped(Error),
    Emit(BestMovesPayloadView),
    Ask,
    Finished(BestMovesPayloadView),
}

/// What a line of the engine has come to.
#[derive(Debug, Clone, PartialEq, Eq)]
pub enum LineOutcome {
    /// Nothing is to be done.
    Ignored,
    /// The line could not be used; the session goes on.
    Skipped(Error),
    /// The payload is to be sent to the front end.
    Emit(BestMovesPayload),
    /// A snapshot waits that may be sent if the rate limiter lets it through: the
    /// limiter is to be asked, and its answer handed to `on_limiter`.
    Ask,
    /// The search has ended: the payload is to be sent, and the session's loop ends.
    Finished(BestMovesPayload),
}

impl View for LineOutcome {
    type V = LineOutcomeView;

    open spec fn view(&self) -> LineOutcomeView {
        match self {
            LineOutcome::Ignored => LineOutcomeView::Ignored,
            LineOutcome::Skipped(e) => LineOutcomeView::Skipped(*e),
            LineOutcome::Emit(p) => LineOutcomeView::Emit(p@),
            LineOutcome::Ask => LineOutcomeView::Ask,
            LineOutcome::Finished(p) => LineOutcomeView::Finished(p@),
        }
    }
}

impl EngineProcessView {
    /// The session after a line of the engine that reads as `message`, at time `now`.
    pub open spec fn after_message(self, message: MessageView, now: u64) -> EngineProcessView {
        match message {
            MessageView::Info(info) => match line_of(info, self.position) {
                Ok(line) => self.absorbed(line, now),
                Err(_) => self,
            },
            MessageView::BestMove { .. } => self.finished(),
            _ => self,
        }
    }

    /// What a line of the engine that reads as `message` comes to, at time `now`.
    pub open spec fn outcome(self, message: MessageView, now: u64) -> LineOutcomeView {
        match message {
            MessageView::Info(info) => match line_of(info, self.position) {
                Ok(line) => self.settled(line, now),
                Err(e) => LineOutcomeView::Skipped(e),
            },
            MessageView::BestMove { .. } => LineOutcomeView::Finished(self.final_payload()),
            _ => LineOutcomeView::Ignored,
        }
    }
}

impl EngineProcess {
    fn payload(&self, progress: u32) -> (r: BestMovesPayload)
        ensures
            r@ == self@.payload(self@.last_best_moves, progress),
    {
        BestMovesPayload {
            best_lines: copy_lines(&self.last_best_moves),
            engine: self.id.clone(),
            tab: self.tab.clone(),
            fen: self.options.fen.clone(),
            moves: copy_strings(&self.options.moves),
            progress,
        }
    }

    /// Takes an analysis line at time `now` into the snapshot under way, and says
    /// what it comes to: nothing, a payload to send to the front end, or a
    /// question to the rate limiter.
    pub fn assemble(&mut self, line: BestMoves, now: u64) -> (r: LineOutcome)
        ensures
            final(self)@ == old(self)@.absorbed(line@, now),
            r@ == old(self)@.settled(line@, now),
            old(self)@.wf() && line@.wf() ==> final(self)@.wf(),
    {
        let multipv: u16 = line.multipv;
        let depth: u32 = line.depth;
        let nodes: u32 = line.nodes;
        if multipv == 0 || (multipv - 1) as usize != self.best_moves.len() || multipv
            > self.real_multipv {
            return LineOutcome::Ignored;
        }
        let ghost before = self@;
        push_line(&mut self.best_moves, line);
        if multipv != self.real_multipv {
            return LineOutcome::Ignored;
        }
        if same_depth(&self.best_moves, depth) && depth >= self.last_depth {
            let waited: u64 = if now >= self.start {
                now - self.start
            } else {
                0
            };
            let progress: u32 = calculate_progress(&self.go_mode, depth, nodes, waited);
            self.last_best_moves = copy_lines(&self.best_moves);
            self.best_moves = Vec::new();
            self.last_depth = depth;
            self.last_progress = progress;
            let verdict: Verdict = self.scheduler.offer(depth, now);
            proof {
                assert(line_views(self.best_moves@) =~= Seq::<BestMovesView>::empty());
                assert(self@ == before.absorbed(line@, now));
                if before.wf() && line@.wf() {
                    let snapshot = before.best_moves.push(line@);
                    assert forall|k: int| 0 <= k < snapshot.len() implies (
                    #[trigger] snapshot[k]).wf() by {
                        if k < before.best_moves.len() {
                            assert(before.best_moves[k].wf());
                        }
                    }
                }
            }
            match verdict {
                Verdict::Emit => LineOutcome::Emit(self.payload(progress)),
                Verdict::Ask => LineOutcome::Ask,
                Verdict::Hold => LineOutcome::Ignored,
            }
        } else {
            self.best_moves = Vec::new();
            proof {
                assert(line_views(self.best_moves@) =~= Seq::<BestMovesView>::empty());
            }
            LineOutcome::Ignored
        }
    }

    /// Takes what the engine said of a line at time `now`, and says what it
    /// comes to.
    ///
    /// Fails with `NoMovesFound` where the engine gave no move and with
    /// `IllegalMove` where one of its moves cannot be played in the position
    /// under study; the session is then left as it was.
    pub fn handle_info_message(&mut self, info: &InfoLine, now: u64) -> (r: Result<
        LineOutcome,
        Error,
    >)
        ensures
            match r {
                Ok(outcome) => {
                    &&& line_of(info@, old(self)@.position) matches Ok(line)
                    &&& final(self)@ == old(self)@.absorbed(line, now)
                    &&& outcome@ == old(self)@.settled(line, now)
                },
                Err(e) => {
                    &&& line_of(info@, old(self)@.position) == Err::<BestMovesView, Error>(e)
                    &&& final(self)@ == old(self)@
                },
            },
            old(self)@.wf() ==> final(self)@.wf(),
    {
        match line_from_info(info, self.position.as_str()) {
            Ok(line) => Ok(self.assemble(line, now)),
            Err(e) => Err(e),
        }
    }

    /// Takes the answer of the rate limiter at time `now`: says whether the last
    /// snapshot, which waits, is to be sent to the front end now.
    pub fn on_limiter(&mut self, admitted: bool, now: u64) -> (r: Option<BestMovesPayload>)
        ensures
            final(self)@ == old(self)@.answered(admitted, now),
            match r {
                Some(p) => old(self)@.released(admitted, now) == Some(p@),
                None => old(self)@.released(admitted, now).is_none(),
            },
            old(self)@.wf() ==> final(self)@.wf(),
    {
        if self.scheduler.answer(admitted, now) {
            Some(self.payload(self.last_progress))
        } else {
            None
        }
    }

    /// A tick of the timer at time `now`: says whether the last snapshot, which
    /// has waited, is to be sent to the front end now.
    pub fn on_tick(&mut self, now: u64) -> (r: Option<BestMovesPayload>)
        ensures
            final(self)@ == old(self)@.ticked(now),
            match r {
                Some(p) => old(self)@.flushed(now) == Some(p@),
                None => old(self)@.flushed(now).is_none(),
            },
            old(self)@.wf() ==> final(self)@.wf(),
    {
        if self.scheduler.tick(now) {
            Some(self.payload(self.last_progress))
        } else {
            None
        }
    }

    /// The engine has named its best move: the search is over, and the last
    /// snapshot is to be sent to the front end at 100%.
    pub fn on_bestmove(&mut self) -> (r: BestMovesPayload)
        ensures
            final(self)@ == old(self)@.finished(),
            r@ == old(self)@.final_payload(),
            old(self)@.wf() ==> final(self)@.wf(),
    {
        let r = self.payload(FINISHED);
        self.running = false;
        self.last_progress = FINISHED;
        self.scheduler.pending = false;
        r
    }

    /// Takes one line of the engine at time `now`: records it, reads it, and
    /// says what it has come to.
    pub fn on_line(&mut self, line: &str, now: u64) -> (r: LineOutcome)
        ensures
            final(self)@ == old(self)@.logged(line@, now).after_message(parsed(line@), now),
            r@ == old(self)@.logged(line@, now).outcome(parsed(line@), now),
            old(self)@.wf() ==> final(self)@.wf(),
    {
        push_log(&mut self.logs, EngineLog::Engine(line.to_owned()));
        self.last_line_at = now;
        match parse_line(line) {
            Message::Info(info) => match self.handle_info_message(&info, now) {
                Ok(outcome) => outcome,
                Err(e) => LineOutcome::Skipped(e),
            },
            Message::BestMove { .. } => LineOutcome::Finished(self.on_bestmove()),
            _ => LineOutcome::Ignored,
        }
    }
}


/// How a request for analysis is answered.
#[derive(Debug, Clone, PartialEq, Eq)]
pub enum BestMovesReply {
    /// The search asked for is under way: how far it has come, and its last snapshot.
    Cached(u32, Vec<BestMoves>),
    /// Another search is asked for. The command, where there is one, ends the search
    /// under way; after a pause for the engine to fall silent the session is to be
    /// given the new position and started again.
    Restart(Option<String>),
}

impl EngineProcess {
    /// Answers a request for analysis to a session that exists already.
    ///
    /// A request for the search that is under way is answered from the session,
    /// which is left as it is. Any other request ends the search under way.
    pub fn get_best_moves(&mut self, go_mode: &GoMode, options: &EngineOptions) -> (r:
        BestMovesReply)
        ensures
            match r {
                BestMovesReply::Cached(progress, lines) => {
                    &&& old(self)@.reuse(*go_mode, options@) == Some((progress, line_views(lines@)))
                    &&& final(self)@ == old(self)@
                },
                BestMovesReply::Restart(command) => {
                    &&& old(self)@.reuse(*go_mode, options@).is_none()
                    &&& final(self)@ == old(self)@.stopped()
                    &&& match command {
                        Some(c) => old(self)@.running && c@ == "stop\n"@,
                        None => !old(self)@.running,
                    }
                },
            },
            old(self)@.wf() ==> final(self)@.wf(),
    {
        match self.reuse(go_mode, options) {
            Some(cached) => BestMovesReply::Cached(cached.0, cached.1),
            None => BestMovesReply::Restart(self.stop()),
        }
    }

    /// Gives the session a new position and settings and starts the search at time
    /// `now`: says which commands are to be sent to the engine, in order.
    ///
    /// Refused with `InvalidEngineState` where the engine is dead, and otherwise as
    /// `set_options` refuses; the session is then left as it was.
    pub fn restart(&mut self, options: EngineOptions, go_mode: &GoMode, now: u64) -> (r: Result<
        Vec<String>,
        Error,
    >)
        ensures
            match r {
                Ok(commands) => {
                    &&& !old(self)@.crashed
                    &&& EngineProcessView::options_outcome(options@) matches Ok(outcome)
                    &&& views(commands@) == old(self)@.option_changes(options@).push(
                        go_text(*go_mode),
                    )
                    &&& final(self)@ == old(self)@.configured(
                        options@,
                        outcome.0,
                        outcome.1,
                    ).started(*go_mode, now)
                    &&& final(self)@.reuse(*go_mode, options@).is_some()
                },
                Err(e) => {
                    &&& final(self)@ == old(self)@
                    &&& if old(self)@.crashed {
                        state_error(e, crashed_detail())
                    } else {
                        EngineProcessView::options_outcome(options@) matches Err(refusal)
                            && reports(e, refusal)
                    }
                },
            },
            old(self)@.wf() ==> final(self)@.wf(),
    {
        if self.crashed {
            return Err(Error::InvalidEngineState(String::from_str("engine has crashed")));
        }
        let mut commands: Vec<String> = match self.set_options(options) {
            Ok(c) => c,
            Err(e) => {
                return Err(e);
            },
        };
        match self.go(go_mode, now) {
            Ok(c) => {
                let ghost before = views(commands@);
                commands.push(c);
                assert(views(commands@) =~= before.push(c@));
                Ok(commands)
            },
            Err(e) => Err(e),
        }
    }
}

/// What reaches a session during a search: an analysis line, an answer of the
/// rate limiter, or a tick of the timer.
pub enum Input {
    Line { line: BestMovesView, now: u64 },
    Limiter { admitted: bool, now: u64 },
    Tick { now: u64 },
}

impl EngineProcessView {
    /// The session after an input.
    pub open spec fn step(self, input: Input) -> EngineProcessView {
        match input {
            Input::Line { line, now } => self.absorbed(line, now),
            Input::Limiter { admitted, now } => self.answered(admitted, now),
            Input::Tick { now } => self.ticked(now),
        }
    }

    /// What an input makes the session send.
    pub open spec fn sends(self, input: Input) -> Option<BestMovesPayloadView> {
        match input {
            Input::Line { line, now } => self.emitted(line, now),
            Input::Limiter { admitted, now } => self.released(admitted, now),
            Input::Tick { now } => self.flushed(now),
        }
    }

    /// Everything that a run of inputs makes the session send, in order.
    pub open spec fn payloads(self, inputs: Seq<Input>) -> Seq<BestMovesPayloadView>
        decreases inputs.len(),
    {
        if inputs.len() == 0 {
            Seq::empty()
        } else {
            let rest = self.step(inputs[0]).payloads(inputs.drop_first());
            match self.sends(inputs[0]) {
                Some(p) => seq![p] + rest,
                None => rest,
            }
        }
    }
}

/// Every analysis line of a run is sound.
pub open spec fn sound_inputs(inputs: Seq<Input>) -> bool {
    forall|k: int|
        0 <= k < inputs.len() ==> match #[trigger] inputs[k] {
            Input::Line { line, .. } => line.wf(),
            _ => true,
        }
}

/// A payload is complete for snapshots of `width` lines: it has that many lines,
/// one at least, all sound and all at one depth.
pub open spec fn complete(p: BestMovesPayloadView, width: u16) -> bool {
    &&& p.best_lines.len() == width
    &&& p.best_lines.len() >= 1
    &&& all_at_depth(p.best_lines, p.best_lines[0].depth)
    &&& all_sound(p.best_lines)
}

/// The depth of a payload: the depth of its first line.
pub open spec fn depth_of(p: BestMovesPayloadView) -> u32 {
    p.best_lines[0].depth
}

/// Every payload is complete and at depth `floor` or more, and none is
/// shallower than the one before it.
pub open spec fn orderly(ps: Seq<BestMovesPayloadView>, width: u16, floor: u32) -> bool {
    &&& forall|k: int| 0 <= k < ps.len() ==> complete(#[trigger] ps[k], width)
    &&& forall|k: int| 0 <= k < ps.len() ==> depth_of(#[trigger] ps[k]) >= floor
    &&& forall|i: int, j: int| 0 <= i <= j < ps.len() ==> depth_of(ps[i]) <= depth_of(ps[j])
}

/// A sound session stays sound under every input, keeps the width of its
/// snapshots, and never goes back in depth; and what it sends is complete and
/// at the depth that it has reached.
pub proof fn lemma_step(s: EngineProcessView, input: Input)
    requires
        s.wf(),
        match input {
            Input::Line { line, .. } => line.wf(),
            _ => true,
        },
    ensures
        s.step(input).wf(),
        s.step(input).real_multipv == s.real_multipv,
        s.step(input).last_depth >= s.last_depth,
        match s.sends(input) {
            Some(p) => complete(p, s.real_multipv) && depth_of(p) == s.step(input).last_depth,
            None => true,
        },
{
    match input {
        Input::Line { line, now } => {
            lemma_progress_bounds(s.go_mode, line.depth, line.nodes, elapsed(s.start, now) as u64);
            if s.completes(line) {
                let snapshot = s.best_moves.push(line);
                assert forall|k: int| 0 <= k < snapshot.len() implies (#[trigger] snapshot[k]).wf() by {
                    if k < s.best_moves.len() {
                        assert(s.best_moves[k].wf());
                    }
                }
                assert(snapshot[0].depth == line.depth);
            } else if s.accepts(line) && line.multipv != s.real_multipv {
                let partial = s.best_moves.push(line);
                assert forall|k: int| 0 <= k < partial.len() implies (#[trigger] partial[k]).wf()
                    && partial[k].multipv == k + 1 by {
                    if k < s.best_moves.len() {
                        assert(s.best_moves[k].wf());
                        assert(s.best_moves[k].multipv == k + 1);
                    }
                }
            }
        },
        Input::Limiter { admitted, now } => {
            if s.scheduler.releases(admitted, now) {
                assert(s.last_best_moves[0].depth == s.last_depth);
            }
        },
        Input::Tick { now } => {
            if s.scheduler.flushes(now) {
                assert(s.last_best_moves[0].depth == s.last_depth);
            }
        },
    }
}

proof fn lemma_orderly_cons(
    p: BestMovesPayloadView,
    rest: Seq<BestMovesPayloadView>,
    width: u16,
    floor: u32,
)
    requires
        complete(p, width),
        depth_of(p) >= floor,
        orderly(rest, width, depth_of(p)),
    ensures
        orderly(seq![p] + rest, width, floor),
{
    let all = seq![p] + rest;
    assert forall|k: int| 0 <= k < all.len() implies complete(#[trigger] all[k], width)
        && depth_of(all[k]) >= floor by {
        if k > 0 {
            assert(all[k] == rest[k - 1]);
        }
    }
    assert forall|i: int, j: int| 0 <= i <= j < all.len() implies depth_of(all[i]) <= depth_of(
        all[j],
    ) by {
        if i > 0 {
            assert(all[i] == rest[i - 1]);
            assert(all[j] == rest[j - 1]);
        } else if j > 0 {
            assert(all[j] == rest[j - 1]);
        }
    }
}

proof fn lemma_run_orderly(s: EngineProcessView, inputs: Seq<Input>)
    requires
        s.wf(),
        sound_inputs(inputs),
    ensures
        orderly(s.payloads(inputs), s.real_multipv, s.last_depth),
    decreases inputs.len(),
{
    if inputs.len() > 0 {
        let next = s.step(inputs[0]);
        let tail = inputs.drop_first();
        assert(sound_inputs(tail)) by {
            assert forall|k: int| 0 <= k < tail.len() implies match #[trigger] tail[k] {
                Input::Line { line, .. } => line.wf(),
                _ => true,
            } by {
                assert(tail[k] == inputs[k + 1]);
            }
        }
        lemma_step(s, inputs[0]);
        lemma_run_orderly(next, tail);
        let rest = next.payloads(tail);
        match s.sends(inputs[0]) {
            Some(p) => {
                lemma_orderly_cons(p, rest, s.real_multipv, s.last_depth);
            },
            None => {},
        }
    }
}

/// Snapshot completeness: whatever reaches a session during a search, every
/// payload that it sends holds as many lines as the session's snapshots have, all
/// at one depth, each with a move and with as many moves in one notation as in
/// the other.
pub proof fn lemma_payloads_complete(s: EngineProcessView, inputs: Seq<Input>, k: int)
    requires
        s.wf(),
        sound_inputs(inputs),
        0 <= k < s.payloads(inputs).len(),
    ensures
        complete(s.payloads(inputs)[k], s.real_multipv),
{
    lemma_run_orderly(s, inputs);
}

/// Depth monotonicity: whatever reaches a session during a search, no payload
/// that it sends is shallower than one that it sent before.
pub proof fn lemma_payload_depth_monotone(
    s: EngineProcessView,
    inputs: Seq<Input>,
    i: int,
    j: int,
)
    requires
        s.wf(),
        sound_inputs(inputs),
        0 <= i <= j < s.payloads(inputs).len(),
    ensures
        s.last_depth <= depth_of(s.payloads(inputs)[i]) <= depth_of(s.payloads(inputs)[j]),
{
    lemma_run_orderly(s, inputs);
}

/// Eventual flush: a snapshot that waits is sent by the first tick of the timer
/// that comes `MAX_EVENT_INTERVAL` or more after the last snapshot was sent, as
/// it stands and with the progress it had; and no tick after that sends it again.
pub proof fn lemma_eventual_flush(s: EngineProcessView, sent_at: u64, now: u64, later: u64)
    requires
        s.scheduler.pending,
        s.scheduler.last_emit_at == Some(sent_at),
        now >= sent_at + MAX_EVENT_INTERVAL,
    ensures
        s.flushed(now) == Some(s.payload(s.last_best_moves, s.last_progress)),
        s.ticked(now).flushed(later).is_none(),
{
}

/// Terminal emission: when the engine names its best move, the last snapshot is
/// sent at 100%, the search is over, and no tick of the timer sends anything after it.
pub proof fn lemma_terminal_emission(s: EngineProcessView, now: u64)
    ensures
        s.final_payload().progress == FINISHED,
        s.final_payload().best_lines == s.last_best_moves,
        !s.finished().running,
        s.finished().last_progress == FINISHED,
        s.finished().flushed(now).is_none(),
{
}

/// The number of lines asked for is one at least.
pub proof fn lemma_request_positive(opts: Seq<(Seq<char>, Seq<char>)>, i: int)
    ensures
        match multipv_request(opts, i) {
            Ok(n) => n >= 1,
            Err(_) => true,
        },
    decreases opts.len() - i,
{
    if 0 <= i < opts.len() && opts[i].0 != "MultiPV"@ {
        lemma_request_positive(opts, i + 1);
    }
}

/// The width of a snapshot: where a position and settings are taken, snapshots have
/// as many lines as the settings ask for, but no more than the position has legal
/// moves, and one at least.
pub proof fn lemma_multipv_clamp(new: EngineOptionsView)
    ensures
        match EngineProcessView::options_outcome(new) {
            Ok(outcome) => {
                &&& multipv_request(new.extra_options, 0) matches Ok(requested)
                &&& outcome.1 >= 1
                &&& outcome.1 <= requested
                &&& outcome.1 <= legal_moves(outcome.0).len()
                &&& (outcome.1 == requested || outcome.1 == legal_moves(outcome.0).len())
            },
            Err(_) => true,
        },
{
    lemma_request_positive(new.extra_options, 0);
}

proof fn lemma_no_option_changes(opts: Seq<(Seq<char>, Seq<char>)>, i: int, acc: Seq<Seq<char>>)
    ensures
        option_commands(opts, opts, i, acc) == acc,
    decreases opts.len() - i,
{
    if 0 <= i < opts.len() {
        assert(opts.contains(opts[i]));
        lemma_no_option_changes(opts, i + 1, acc);
    }
}

/// Parameter change: a session that searches a position in one mode and is asked
/// for the same position in another mode does not answer from what it has. It
/// records `stop`, and is then started again, which it does not refuse: no
/// setting and no position is sent, only `go` in the new mode, which is recorded
/// after `stop`. Afterwards it searches in the new mode with the same options,
/// at depth 0 and with nothing assembled.
pub proof fn lemma_parameter_change_restart(s: EngineProcessView, mode: GoMode, now: u64)
    requires
        s.wf(),
        s.running,
        s.real_multipv >= 1,
        mode != s.go_mode,
    ensures
        s.reuse(mode, s.options).is_none(),
        s.stopped().logs == recorded(s.logs, EngineLogView::Gui("stop\n"@)),
        !s.stopped().crashed,
        EngineProcessView::options_outcome(s.options) == Ok::<(Seq<char>, u16), OptionsRefusal>(
            (s.position, s.real_multipv),
        ),
        s.stopped().option_changes(s.options) == Seq::<Seq<char>>::empty(),
        ({
            let after = s.stopped().configured(s.options, s.position, s.real_multipv).started(
                mode,
                now,
            );
            &&& after.go_mode == mode
            &&& after.running
            &&& after.options == s.options
            &&& after.position == s.position
            &&& after.real_multipv == s.real_multipv
            &&& after.last_depth == 0
            &&& after.best_moves.len() == 0
            &&& after.last_best_moves.len() == 0
            &&& after.logs == recorded(
                recorded(s.logs, EngineLogView::Gui("stop\n"@)),
                EngineLogView::Gui(go_text(mode)),
            )
        }),
{
    lemma_no_option_changes(s.options.extra_options, 0, Seq::empty());
    let none = Seq::<Seq<char>>::empty();
    assert(gui_logs(none).len() == 0);
    assert(recorded_all(s.stopped().logs, gui_logs(none), 0) == s.stopped().logs);
}

/// A request for the search that is under way is answered from what the session
/// has, and the answer is the last snapshot with its progress.
pub proof fn lemma_reuse_idempotent(s: EngineProcessView)
    requires
        s.running,
    ensures
        s.reuse(s.go_mode, s.options) == Some((s.last_progress, s.last_best_moves)),
{
}

} // verus!
