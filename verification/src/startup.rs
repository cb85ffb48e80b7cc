//! Bringing an engine up: the opening dialogue, what the engine says of itself,
//! and what is tried again when it does not answer.

use vstd::prelude::*;
use vstd::string::*;
use crate::command::{isready_command, uci_command};
use crate::message::{parse_line, parsed, Message, MessageView};
use crate::text::{is_word, parse_bounded, read_u64, split_tokens, tokens, views};

verus! {

/// The whole opening dialogue must be over within this time, in milliseconds.
pub const ENGINE_INIT_TIMEOUT: u64 = 10000;

/// How long the engine is given to fall silent after `stop`, in milliseconds.
pub const ENGINE_STOP_DELAY: u64 = 50;

/// How long one read of the engine's output may take, in milliseconds.
pub const TICK_DURATION: u64 = 10;

/// How often an engine is started before the failure is reported.
pub const MAX_START_ATTEMPTS: u32 = 3;

/// The pause before the second attempt to start an engine, in milliseconds.
pub const FIRST_RETRY_DELAY: u64 = 100;

/// The smallest hash table that is tried, in megabytes.
pub const MIN_HASH: u64 = 16;

/// Where the opening dialogue stands.
#[derive(Debug, Clone, Copy, PartialEq, Eq, Structural)]
pub enum Handshake {
    /// `uci` was sent; the engine has not said `uciok` yet.
    AwaitUciOk,
    /// `isready` was sent; the engine has not said `readyok` yet.
    AwaitReadyOk,
    /// The engine is ready.
    Ready,
}

impl Handshake {
    /// The dialogue after a line of the engine that reads as `message`.
    pub open spec fn after(self, message: MessageView) -> Handshake {
        match (self, message) {
            (Handshake::AwaitUciOk, MessageView::UciOk) => Handshake::AwaitReadyOk,
            (Handshake::AwaitReadyOk, MessageView::ReadyOk) => Handshake::Ready,
            _ => self,
        }
    }

    /// Whether a line that reads as `message` is answered with `isready`.
    pub open spec fn asks_ready(self, message: MessageView) -> bool {
        self == Handshake::AwaitUciOk && message == MessageView::UciOk
    }

    /// Opens the dialogue: gives the command to send first.
    pub fn begin() -> (r: (Handshake, String))
        ensures
            r.0 == Handshake::AwaitUciOk,
            r.1@ == "uci\n"@,
    {
        (Handshake::AwaitUciOk, uci_command())
    }

    /// Takes one line of the engine: gives the command to answer with, if any.
    pub fn on_line(&mut self, line: &str) -> (command: Option<String>)
        ensures
            *final(self) == old(self).after(parsed(line@)),
            match command {
                Some(c) => old(self).asks_ready(parsed(line@)) && c@ == "isready\n"@,
                None => !old(self).asks_ready(parsed(line@)),
            },
    {
        let message = parse_line(line);
        match (*self, message) {
            (Handshake::AwaitUciOk, Message::UciOk) => {
                *self = Handshake::AwaitReadyOk;
                Some(isready_command())
            },
            (Handshake::AwaitReadyOk, Message::ReadyOk) => {
                *self = Handshake::Ready;
                None
            },
            _ => None,
        }
    }

    /// Whether the engine is ready.
    pub fn is_ready(&self) -> (r: bool)
        ensures
            r == (*self == Handshake::Ready),
    {
        match self {
            Handshake::Ready => true,
            _ => false,
        }
    }
}

/// The engine gets ready in two lines: one that reads `uciok`, then one that
/// reads `readyok`; and `isready` is asked once, after the first.
pub proof fn lemma_handshake(first: MessageView, second: MessageView)
    requires
        first == MessageView::UciOk,
        second == MessageView::ReadyOk,
    ensures
        Handshake::AwaitUciOk.asks_ready(first),
        !Handshake::AwaitUciOk.after(first).asks_ready(second),
        Handshake::AwaitUciOk.after(first).after(second) == Handshake::Ready,
{
}

/// The pause before the attempt after `failed` failed ones, in milliseconds:
/// twice as long each time, and none once `MAX_START_ATTEMPTS` have failed.
pub open spec fn retry_pause(failed: u32) -> Option<u64> {
    if failed == 0 {
        Some(0)
    } else if failed == 1 {
        Some(FIRST_RETRY_DELAY)
    } else if failed == 2 {
        Some((2 * FIRST_RETRY_DELAY) as u64)
    } else {
        None
    }
}

/// Says how long to wait before an engine is started once more, or, with
/// `None`, that it is not started again.
pub fn retry_delay(failed: u32) -> (r: Option<u64>)
    ensures
        r == retry_pause(failed),
        failed >= MAX_START_ATTEMPTS ==> r.is_none(),
        0 < failed < MAX_START_ATTEMPTS ==> r.is_some() && r.unwrap() >= FIRST_RETRY_DELAY,
{
    if failed == 0 {
        Some(0)
    } else if failed == 1 {
        Some(FIRST_RETRY_DELAY)
    } else if failed == 2 {
        Some(2 * FIRST_RETRY_DELAY)
    } else {
        None
    }
}

/// The size of hash table that is tried after `megabytes` has failed: half of it,
/// but `MIN_HASH` at least; none once `MIN_HASH` itself has failed.
pub open spec fn smaller_hash(megabytes: u64) -> Option<u64> {
    if megabytes <= MIN_HASH {
        None
    } else if megabytes / 2 < MIN_HASH {
        Some(MIN_HASH)
    } else {
        Some(megabytes / 2)
    }
}

/// Says which size of hash table is tried next when the engine did not take
/// `megabytes`; with `None` the allocation has failed for good.
pub fn hash_fallback(megabytes: u64) -> (r: Option<u64>)
    ensures
        r == smaller_hash(megabytes),
        match r {
            Some(next) => MIN_HASH <= next < megabytes,
            None => megabytes <= MIN_HASH,
        },
{
    if megabytes <= MIN_HASH {
        None
    } else if megabytes / 2 < MIN_HASH {
        Some(MIN_HASH)
    } else {
        Some(megabytes / 2)
    }
}


/// The size of hash table that a command asks for: the number at the end of
/// `setoption name Hash value <number>`, and nothing for any other command.
pub open spec fn hash_asked(command: Seq<char>) -> Option<u64> {
    let t = tokens(command);
    if t.len() == 5 && t[0] == "setoption"@ && t[1] == "name"@ && t[2] == "Hash"@ && t[3]
        == "value"@ {
        match parse_bounded(t[4], u64::MAX as nat) {
            Some(v) => Some(v as u64),
            None => None,
        }
    } else {
        None
    }
}

/// Tells whether a command sets the size of the hash table, and to what. After
/// such a command the engine is asked whether it is ready, and `hash_fallback`
/// says what to try where it does not answer.
pub fn hash_request(command: &str) -> (r: Option<u64>)
    ensures
        r == hash_asked(command@),
{
    let t: Vec<String> = split_tokens(command);
    if t.len() == 5 && is_word(&t[0], "setoption") && is_word(&t[1], "name") && is_word(
        &t[2],
        "Hash",
    ) && is_word(&t[3], "value") {
        assert(views(t@)[0] == t@[0]@ && views(t@)[1] == t@[1]@ && views(t@)[2] == t@[2]@
            && views(t@)[3] == t@[3]@ && views(t@)[4] == t@[4]@);
        read_u64(t[4].as_str())
    } else {
        assert(views(t@).len() == t@.len());
        if t.len() == 5 {
            assert(views(t@)[0] == t@[0]@ && views(t@)[1] == t@[1]@ && views(t@)[2] == t@[2]@
                && views(t@)[3] == t@[3]@);
        }
        None
    }
}

/// What an engine says of itself, as plain values.
pub struct EngineConfigView {
    pub name: Seq<char>,
    pub options: Seq<Seq<char>>,
}

/// What an engine says of itself.
#[derive(Debug, Clone, PartialEq, Eq)]
pub struct EngineConfig {
    /// The engine's name.
    pub name: String,
    /// The options that the engine offers, each as the engine describes it.
    pub options: Vec<String>,
}

impl View for EngineConfig {
    type V = EngineConfigView;

    open spec fn view(&self) -> EngineConfigView {
        EngineConfigView { name: self.name@, options: views(self.options@) }
    }
}

/// The name of an engine that has given none.
pub open spec fn unknown_engine() -> Seq<char> {
    "Unknown Engine"@
}

/// What the lines of `lines` from index `i` on add to `acc`, up to the line that
/// reads `uciok`: the last name given, and every option in order.
pub open spec fn config_from(lines: Seq<Seq<char>>, i: int, acc: EngineConfigView) -> EngineConfigView
    decreases lines.len() - i,
{
    if i < 0 || i >= lines.len() {
        acc
    } else {
        match parsed(lines[i]) {
            MessageView::UciOk => acc,
            MessageView::IdName(n) => config_from(lines, i + 1, EngineConfigView { name: n, ..acc }),
            MessageView::OptionConfig(c) => config_from(
                lines,
                i + 1,
                EngineConfigView { options: acc.options.push(c), ..acc },
            ),
            _ => config_from(lines, i + 1, acc),
        }
    }
}

/// The configuration named after its file where the engine gave no name, and
/// `Unknown Engine` where the file has no name either.
pub open spec fn named(config: EngineConfigView, file_stem: Option<Seq<char>>) -> EngineConfigView {
    if config.name.len() > 0 {
        config
    } else {
        EngineConfigView {
            name: match file_stem {
                Some(stem) => stem,
                None => unknown_engine(),
            },
            ..config
        }
    }
}

/// Reads what an engine says of itself out of its answer to `uci`; `file_stem`
/// is the name of the engine's file without its ending.
pub fn get_engine_config(lines: &Vec<String>, file_stem: Option<&str>) -> (r: EngineConfig)
    ensures
        r@ == named(
            config_from(
                views(lines@),
                0,
                EngineConfigView { name: Seq::empty(), options: Seq::empty() },
            ),
            match file_stem {
                Some(stem) => Some(stem@),
                None => None,
            },
        ),
{
    let mut config = EngineConfig { name: String::new(), options: Vec::new() };
    let ghost seed = EngineConfigView { name: Seq::empty(), options: Seq::empty() };
    assert(config@ =~= seed) by {
        assert(views(config.options@) =~= Seq::<Seq<char>>::empty());
    }
    let mut i: usize = 0;
    let mut done: bool = false;
    while i < lines.len() && !done
        invariant
            i <= lines.len(),
            seed == (EngineConfigView { name: Seq::empty(), options: Seq::empty() }),
            !done ==> config_from(views(lines@), i as int, config@) == config_from(
                views(lines@),
                0,
                seed,
            ),
            done ==> config@ == config_from(views(lines@), 0, seed),
        decreases lines.len() - i, (if done { 0int } else { 1int }),
    {
        assert(views(lines@)[i as int] == lines@[i as int]@);
        match parse_line(lines[i].as_str()) {
            Message::UciOk => {
                done = true;
            },
            Message::IdName(n) => {
                config.name = n;
                i = i + 1;
            },
            Message::OptionConfig(c) => {
                let ghost before = views(config.options@);
                config.options.push(c);
                assert(views(config.options@) =~= before.push(c@));
                i = i + 1;
            },
            _ => {
                i = i + 1;
            },
        }
    }
    if config.name.as_str().unicode_len() == 0 {
        config.name = match file_stem {
            Some(stem) => String::from_str(stem),
            None => String::from_str("Unknown Engine"),
        };
    }
    config
}

/// Picks the sessions of a tab: the indices, in order, of the tab names in
/// `tabs` that are `tab`.
pub fn kill_engines(tabs: &Vec<String>, tab: &str) -> (r: Vec<usize>)
    ensures
        forall|k: int|
            0 <= k < r@.len() ==> 0 <= #[trigger] r@[k] < tabs@.len() && tabs@[r@[k] as int]@
                == tab@,
        forall|i: int|
            0 <= i < tabs@.len() && (#[trigger] tabs@[i])@ == tab@ ==> r@.contains(i as usize),
        forall|a: int, b: int| 0 <= a < b < r@.len() ==> r@[a] < r@[b],
{
    let mut r: Vec<usize> = Vec::new();
    let mut i: usize = 0;
    while i < tabs.len()
        invariant
            i <= tabs@.len(),
            forall|k: int|
                0 <= k < r@.len() ==> 0 <= #[trigger] r@[k] < i && tabs@[r@[k] as int]@ == tab@,
            forall|j: int|
                0 <= j < i && (#[trigger] tabs@[j])@ == tab@ ==> r@.contains(j as usize),
            forall|a: int, b: int| 0 <= a < b < r@.len() ==> r@[a] < r@[b],
        decreases tabs@.len() - i,
    {
        if is_word(&tabs[i], tab) {
            let ghost before = r@;
            r.push(i);
            proof {
                assert(r@[before.len() as int] == i);
                assert forall|j: int| 0 <= j < i + 1 && (#[trigger] tabs@[j])@ == tab@ implies r@.contains(
                    j as usize,
                ) by {
                    if j < i {
                        assert(before.contains(j as usize));
                        let w = choose|w: int| 0 <= w < before.len() && before[w] == j as usize;
                        assert(r@[w] == j as usize);
                    }
                }
            }
        }
        i = i + 1;
    }
    r
}

} // verus!
