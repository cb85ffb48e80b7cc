//! The emission scheduler: which analysis snapshots are sent on at once, which
//! wait, and when a waiting one is sent after all.
//!
//! Time is a count of milliseconds that the caller reads from its clock. The
//! rate limiter is the caller's too: the scheduler says when it is to be asked,
//! and takes its answer.

use vstd::prelude::*;

verus! {

/// Two snapshots of the same depth are sent at least this far apart, in milliseconds.
pub const MIN_EVENT_INTERVAL: u64 = 50;

/// A waiting snapshot is sent once this much time has passed since the last one,
/// in milliseconds.
pub const MAX_EVENT_INTERVAL: u64 = 100;

/// How many events the caller's rate limiter lets through in a second, and at once.
pub const EVENTS_PER_SECOND: u32 = 20;

/// What becomes of a complete snapshot.
#[derive(Debug, Clone, Copy, PartialEq, Eq, Structural)]
pub enum Verdict {
    /// It is sent now.
    Emit,
    /// It waits.
    Hold,
    /// It waits, and the rate limiter is to be asked whether it may be sent now.
    Ask,
}

/// The scheduler's memory between two snapshots.
#[derive(Debug, Clone, Copy, PartialEq, Eq, Structural)]
pub struct Scheduler {
    /// When the last snapshot was sent; `None` before the first of a search.
    pub last_emit_at: Option<u64>,
    /// The depth of the last snapshot that was sent.
    pub emitted_depth: u32,
    /// Whether the latest snapshot is still waiting to be sent.
    pub pending: bool,
}

/// The time from `since` to `now`; none where the clock has gone back.
pub open spec fn elapsed(since: u64, now: u64) -> nat {
    if now >= since {
        (now - since) as nat
    } else {
        0
    }
}

impl Scheduler {
    /// A snapshot waits only after one was sent.
    pub open spec fn wf(self) -> bool {
        self.pending ==> self.last_emit_at.is_some()
    }

    /// The scheduler at the start of a search.
    pub open spec fn fresh() -> Scheduler {
        Scheduler { last_emit_at: None, emitted_depth: 0, pending: false }
    }

    /// The time since the last snapshot was sent.
    pub open spec fn since_last(self, now: u64) -> nat {
        match self.last_emit_at {
            Some(t) => elapsed(t, now),
            None => 0,
        }
    }

    /// The scheduler after it has sent a snapshot of depth `depth` at time `now`.
    pub open spec fn sent(self, depth: u32, now: u64) -> Scheduler {
        Scheduler { last_emit_at: Some(now), emitted_depth: depth, pending: false }
    }

    /// Whether a snapshot is sent without regard to time: it is the first of the
    /// search, or deeper than the last that was sent.
    pub open spec fn urgent(self, depth: u32) -> bool {
        self.last_emit_at.is_none() || depth > self.emitted_depth
    }

    /// Whether enough time has passed since the last snapshot was sent for another
    /// of the same depth.
    pub open spec fn rested(self, now: u64) -> bool {
        self.last_emit_at.is_some() && self.since_last(now) >= MIN_EVENT_INTERVAL
    }

    /// Whether a snapshot of the depth of the last one has waited long enough to ask
    /// the rate limiter.
    pub open spec fn due(self, depth: u32, now: u64) -> bool {
        depth == self.emitted_depth && self.rested(now)
    }

    /// What becomes of a complete snapshot of depth `depth` at time `now`.
    pub open spec fn verdict(self, depth: u32, now: u64) -> Verdict {
        if self.urgent(depth) {
            Verdict::Emit
        } else if self.due(depth, now) {
            Verdict::Ask
        } else {
            Verdict::Hold
        }
    }

    /// Whether a complete snapshot of depth `depth` is sent at once at time `now`.
    pub open spec fn emits(self, depth: u32, now: u64) -> bool {
        self.urgent(depth)
    }

    /// The scheduler after a complete snapshot of depth `depth` at time `now`:
    /// it is sent, or it waits in place of any that waited before.
    pub open spec fn offered(self, depth: u32, now: u64) -> Scheduler {
        if self.urgent(depth) {
            self.sent(depth, now)
        } else {
            Scheduler { pending: true, ..self }
        }
    }

    /// Whether the waiting snapshot is sent when the rate limiter has answered at
    /// time `now`: it has said yes, a snapshot waits, and enough time has passed
    /// since the last one was sent.
    pub open spec fn releases(self, admitted: bool, now: u64) -> bool {
        admitted && self.pending && self.rested(now)
    }

    /// The scheduler after the rate limiter has answered at time `now`.
    pub open spec fn answered(self, admitted: bool, now: u64) -> Scheduler {
        if self.releases(admitted, now) {
            Scheduler { last_emit_at: Some(now), pending: false, ..self }
        } else {
            self
        }
    }

    /// Whether the waiting snapshot is sent at a tick at time `now`.
    pub open spec fn flushes(self, now: u64) -> bool {
        self.pending && (self.last_emit_at.is_none() || self.since_last(now) >= MAX_EVENT_INTERVAL)
    }

    /// The scheduler after a tick at time `now`.
    pub open spec fn ticked(self, now: u64) -> Scheduler {
        if self.flushes(now) {
            Scheduler { last_emit_at: Some(now), pending: false, ..self }
        } else {
            self
        }
    }

    pub fn new() -> (r: Scheduler)
        ensures
            r == Scheduler::fresh(),
            r.wf(),
    {
        Scheduler { last_emit_at: None, emitted_depth: 0, pending: false }
    }

    fn waited(&self, now: u64) -> (r: u64)
        ensures
            r == self.since_last(now),
    {
        match self.last_emit_at {
            Some(t) => if now >= t {
                now - t
            } else {
                0
            },
            None => 0,
        }
    }

    /// Takes a complete snapshot of depth `depth` at time `now` and says what
    /// becomes of it. The first snapshot of a search and every deeper one is sent
    /// at once. One of the same depth waits; where `MIN_EVENT_INTERVAL` has passed
    /// since the last was sent, the rate limiter is to be asked, and its answer
    /// handed to `answer`.
    pub fn offer(&mut self, depth: u32, now: u64) -> (r: Verdict)
        ensures
            r == old(self).verdict(depth, now),
            *final(self) == old(self).offered(depth, now),
            old(self).wf() ==> final(self).wf(),
    {
        if self.last_emit_at.is_none() || depth > self.emitted_depth {
            self.last_emit_at = Some(now);
            self.emitted_depth = depth;
            self.pending = false;
            Verdict::Emit
        } else if depth == self.emitted_depth && self.waited(now) >= MIN_EVENT_INTERVAL {
            self.pending = true;
            Verdict::Ask
        } else {
            self.pending = true;
            Verdict::Hold
        }
    }

    /// Takes the answer of the rate limiter at time `now`: says whether the
    /// waiting snapshot is to be sent now.
    pub fn answer(&mut self, admitted: bool, now: u64) -> (emit: bool)
        ensures
            emit == old(self).releases(admitted, now),
            *final(self) == old(self).answered(admitted, now),
            old(self).wf() ==> final(self).wf(),
    {
        if admitted && self.pending && self.last_emit_at.is_some() && self.waited(now)
            >= MIN_EVENT_INTERVAL {
            self.last_emit_at = Some(now);
            self.pending = false;
            true
        } else {
            false
        }
    }

    /// A tick of the timer at time `now`: says whether the waiting snapshot is to be sent now.
    pub fn tick(&mut self, now: u64) -> (emit: bool)
        ensures
            emit == old(self).flushes(now),
            *final(self) == old(self).ticked(now),
            old(self).wf() ==> final(self).wf(),
    {
        if self.pending && (self.last_emit_at.is_none() || self.waited(now)
            >= MAX_EVENT_INTERVAL) {
            self.last_emit_at = Some(now);
            self.pending = false;
            true
        } else {
            false
        }
    }

    /// Forgets the depth that was reached and the snapshot that waits: the
    /// position under study has changed.
    pub fn forget(&mut self)
        ensures
            *final(self) == (Scheduler { emitted_depth: 0, pending: false, ..*old(self) }),
            old(self).wf() ==> final(self).wf(),
    {
        self.emitted_depth = 0;
        self.pending = false;
    }

    /// Starts over for a new search: the next snapshot is the first.
    pub fn restart(&mut self)
        ensures
            *final(self) == (Scheduler { last_emit_at: None, pending: false, ..*old(self) }),
            old(self).wf() ==> final(self).wf(),
    {
        self.last_emit_at = None;
        self.pending = false;
    }
}

/// What reaches the scheduler: a complete snapshot, an answer of the rate
/// limiter, or a tick of the timer.
#[derive(Debug, Clone, Copy, PartialEq, Eq, Structural)]
pub enum Stimulus {
    Snapshot { depth: u32, now: u64 },
    Answer { admitted: bool, now: u64 },
    Timer { now: u64 },
}

/// One snapshot that was sent.
#[derive(Debug, Clone, Copy, PartialEq, Eq, Structural)]
pub struct Emission {
    /// When it was sent.
    pub at: u64,
    /// Its depth.
    pub depth: u32,
    /// Whether it was sent without regard to time, as the first of a search
    /// or as the first of its depth.
    pub urgent: bool,
}

impl Stimulus {
    /// When the stimulus comes.
    pub open spec fn at(self) -> u64 {
        match self {
            Stimulus::Snapshot { now, .. } => now,
            Stimulus::Answer { now, .. } => now,
            Stimulus::Timer { now } => now,
        }
    }
}

impl Scheduler {
    /// The scheduler after a stimulus.
    pub open spec fn react(self, e: Stimulus) -> Scheduler {
        match e {
            Stimulus::Snapshot { depth, now } => self.offered(depth, now),
            Stimulus::Answer { admitted, now } => self.answered(admitted, now),
            Stimulus::Timer { now } => self.ticked(now),
        }
    }

    /// What a stimulus makes the scheduler send.
    pub open spec fn emission(self, e: Stimulus) -> Option<Emission> {
        match e {
            Stimulus::Snapshot { depth, now } => if self.emits(depth, now) {
                Some(Emission { at: now, depth, urgent: true })
            } else {
                None
            },
            Stimulus::Answer { admitted, now } => if self.releases(admitted, now) {
                Some(Emission { at: now, depth: self.emitted_depth, urgent: false })
            } else {
                None
            },
            Stimulus::Timer { now } => if self.flushes(now) {
                Some(Emission { at: now, depth: self.emitted_depth, urgent: false })
            } else {
                None
            },
        }
    }

    /// Everything that a run of stimuli makes the scheduler send, in order.
    pub open spec fn emissions(self, events: Seq<Stimulus>) -> Seq<Emission>
        decreases events.len(),
    {
        if events.len() == 0 {
            Seq::empty()
        } else {
            let rest = self.react(events[0]).emissions(events.drop_first());
            match self.emission(events[0]) {
                Some(x) => seq![x] + rest,
                None => rest,
            }
        }
    }
}

/// The snapshots of a run never get shallower, and none is shallower than `floor`.
pub open spec fn deepening(events: Seq<Stimulus>, floor: u32) -> bool
    decreases events.len(),
{
    if events.len() == 0 {
        true
    } else {
        match events[0] {
            Stimulus::Snapshot { depth, .. } => depth >= floor && deepening(
                events.drop_first(),
                depth,
            ),
            _ => deepening(events.drop_first(), floor),
        }
    }
}

/// The stimuli of a run come in the order of their times, none before `floor`.
pub open spec fn timely(events: Seq<Stimulus>, floor: u64) -> bool
    decreases events.len(),
{
    if events.len() == 0 {
        true
    } else {
        events[0].at() >= floor && timely(events.drop_first(), events[0].at())
    }
}

/// No emission is shallower than `floor`, and none is shallower than the one before it.
pub open spec fn rising(ems: Seq<Emission>, floor: u32) -> bool {
    &&& forall|k: int| 0 <= k < ems.len() ==> (#[trigger] ems[k]).depth >= floor
    &&& forall|i: int, j: int| 0 <= i <= j < ems.len() ==> ems[i].depth <= ems[j].depth
}

/// Each emission comes no earlier than the one before it, and one that is not
/// urgent comes at least `MIN_EVENT_INTERVAL` later; `prev` is when the last
/// snapshot before these was sent.
pub open spec fn spaced(prev: Option<u64>, ems: Seq<Emission>) -> bool
    decreases ems.len(),
{
    if ems.len() == 0 {
        true
    } else {
        &&& match prev {
            Some(t) => ems[0].at >= t && (!ems[0].urgent ==> ems[0].at >= t + MIN_EVENT_INTERVAL),
            None => ems[0].urgent,
        }
        &&& spaced(Some(ems[0].at), ems.drop_first())
    }
}

proof fn lemma_deepening_weaken(events: Seq<Stimulus>, high: u32, low: u32)
    requires
        deepening(events, high),
        low <= high,
    ensures
        deepening(events, low),
    decreases events.len(),
{
    if events.len() > 0 {
        match events[0] {
            Stimulus::Snapshot { .. } => {},
            _ => {
                lemma_deepening_weaken(events.drop_first(), high, low);
            },
        }
    }
}

proof fn lemma_rising_cons(x: Emission, rest: Seq<Emission>, floor: u32)
    requires
        x.depth >= floor,
        rising(rest, x.depth),
    ensures
        rising(seq![x] + rest, floor),
{
    let all = seq![x] + rest;
    assert forall|k: int| 0 <= k < all.len() implies (#[trigger] all[k]).depth >= floor by {
        if k > 0 {
            assert(all[k] == rest[k - 1]);
        }
    }
    assert forall|i: int, j: int| 0 <= i <= j < all.len() implies all[i].depth
        <= all[j].depth by {
        if i > 0 {
            assert(all[i] == rest[i - 1]);
            assert(all[j] == rest[j - 1]);
        } else if j > 0 {
            assert(all[j] == rest[j - 1]);
        }
    }
}

/// Depth never goes back: where the snapshots that reach the scheduler never get
/// shallower, neither do the snapshots that it sends.
pub proof fn lemma_emitted_depth_monotone(s: Scheduler, events: Seq<Stimulus>)
    requires
        deepening(events, s.emitted_depth),
    ensures
        rising(s.emissions(events), s.emitted_depth),
    decreases events.len(),
{
    if events.len() > 0 {
        let e = events[0];
        let next = s.react(e);
        let tail = events.drop_first();
        match e {
            Stimulus::Snapshot { depth, now } => {
                if s.emits(depth, now) {
                    assert(next.emitted_depth == depth);
                    lemma_emitted_depth_monotone(next, tail);
                    lemma_rising_cons(
                        Emission { at: now, depth, urgent: true },
                        next.emissions(tail),
                        s.emitted_depth,
                    );
                } else {
                    assert(next.emitted_depth == s.emitted_depth);
                    lemma_deepening_weaken(tail, depth, s.emitted_depth);
                    lemma_emitted_depth_monotone(next, tail);
                }
            },
            Stimulus::Answer { admitted, now } => {
                assert(next.emitted_depth == s.emitted_depth);
                lemma_emitted_depth_monotone(next, tail);
                if s.releases(admitted, now) {
                    lemma_rising_cons(
                        Emission { at: now, depth: s.emitted_depth, urgent: false },
                        next.emissions(tail),
                        s.emitted_depth,
                    );
                }
            },
            Stimulus::Timer { now } => {
                assert(next.emitted_depth == s.emitted_depth);
                lemma_emitted_depth_monotone(next, tail);
                if s.flushes(now) {
                    lemma_rising_cons(
                        Emission { at: now, depth: s.emitted_depth, urgent: false },
                        next.emissions(tail),
                        s.emitted_depth,
                    );
                }
            },
        }
    }
}

/// A sound scheduler stays sound, whatever reaches it.
pub proof fn lemma_react_keeps_wf(s: Scheduler, e: Stimulus)
    requires
        s.wf(),
    ensures
        s.react(e).wf(),
{
}

/// The pace of a run: where the stimuli come in the order of their times, a
/// snapshot that is not urgent is sent at least `MIN_EVENT_INTERVAL` after the
/// snapshot that was sent before it.
pub proof fn lemma_emissions_spaced(s: Scheduler, events: Seq<Stimulus>, floor: u64)
    requires
        s.wf(),
        timely(events, floor),
        match s.last_emit_at {
            Some(t) => t <= floor,
            None => true,
        },
    ensures
        spaced(s.last_emit_at, s.emissions(events)),
    decreases events.len(),
{
    if events.len() > 0 {
        let e = events[0];
        let next = s.react(e);
        let tail = events.drop_first();
        let rest = next.emissions(tail);
        lemma_react_keeps_wf(s, e);
        match s.emission(e) {
            Some(x) => {
                assert(next.last_emit_at == Some(e.at()));
                lemma_emissions_spaced(next, tail, e.at());
                let all = seq![x] + rest;
                assert(all.drop_first() =~= rest);
                assert(all[0] == x);
            },
            None => {
                assert(next.last_emit_at == s.last_emit_at);
                lemma_emissions_spaced(next, tail, e.at());
            },
        }
    }
}

/// In a sequence that is spaced, each emission but the first comes no earlier than
/// the one before it, and at least `MIN_EVENT_INTERVAL` later where it is not urgent.
pub proof fn lemma_spaced_neighbours(prev: Option<u64>, ems: Seq<Emission>, k: int)
    requires
        spaced(prev, ems),
        1 <= k < ems.len(),
    ensures
        ems[k].at >= ems[k - 1].at,
        !ems[k].urgent ==> ems[k].at >= ems[k - 1].at + MIN_EVENT_INTERVAL,
    decreases k,
{
    let tail = ems.drop_first();
    assert(spaced(Some(ems[0].at), tail));
    if k == 1 {
        assert(tail[0] == ems[1]);
        assert(tail.len() > 0);
    } else {
        lemma_spaced_neighbours(Some(ems[0].at), tail, k - 1);
        assert(tail[k - 1] == ems[k]);
        assert(tail[k - 2] == ems[k - 1]);
    }
}

proof fn lemma_spaced_span(prev: Option<u64>, ems: Seq<Emission>, i: int, j: int)
    requires
        spaced(prev, ems),
        0 <= i <= j < ems.len(),
        forall|k: int| i < k <= j ==> !(#[trigger] ems[k]).urgent,
    ensures
        ems[j].at - ems[i].at >= MIN_EVENT_INTERVAL * (j - i),
    decreases j - i,
{
    if i < j {
        lemma_spaced_span(prev, ems, i, j - 1);
        lemma_spaced_neighbours(prev, ems, j);
        assert(!ems[j].urgent);
    }
}

/// The rate bound: snapshots that follow one another within less than a second,
/// none of them but the first urgent, are at most twenty, whatever the rate
/// limiter answers.
pub proof fn lemma_rate_bound(s: Scheduler, events: Seq<Stimulus>, floor: u64, i: int, j: int)
    requires
        s.wf(),
        timely(events, floor),
        match s.last_emit_at {
            Some(t) => t <= floor,
            None => true,
        },
        0 <= i <= j < s.emissions(events).len(),
        forall|k: int| i < k <= j ==> !(#[trigger] s.emissions(events)[k]).urgent,
        s.emissions(events)[j].at - s.emissions(events)[i].at < 1000,
    ensures
        j - i + 1 <= 20,
{
    lemma_emissions_spaced(s, events, floor);
    lemma_spaced_span(s.last_emit_at, s.emissions(events), i, j);
}

/// The waiting snapshot is sent once: a tick that follows a tick sends nothing.
pub proof fn lemma_flush_once(s: Scheduler, first: u64, second: u64)
    ensures
        s.flushes(first) ==> !s.ticked(first).flushes(second),
        !s.ticked(first).pending || !s.flushes(first),
{
}

/// The waiting snapshot is sent in time: a tick that comes `MAX_EVENT_INTERVAL`
/// or more after the last snapshot was sent sends the one that waits.
pub proof fn lemma_flush_due(s: Scheduler, sent_at: u64, now: u64)
    requires
        s.pending,
        s.last_emit_at == Some(sent_at),
        now >= sent_at + MAX_EVENT_INTERVAL,
    ensures
        s.flushes(now),
        s.emission(Stimulus::Timer { now }) == Some(
            Emission { at: now, depth: s.emitted_depth, urgent: false },
        ),
        !s.ticked(now).pending,
{
}

} // verus!
