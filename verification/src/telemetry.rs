//! Whether the application may report its first run, and where its user is.

use vstd::prelude::*;
use vstd::string::*;

verus! {

/// The user's choice about telemetry.
#[derive(Debug, Clone, Copy, PartialEq, Eq, Structural)]
pub struct TelemetryConfig {
    pub enabled: bool,
    pub initial_run_completed: bool,
}

impl Default for TelemetryConfig {
    /// Telemetry is on until the user turns it off, and the first run is still to come.
    fn default() -> (r: TelemetryConfig)
        ensures
            r.enabled,
            !r.initial_run_completed,
    {
        TelemetryConfig { enabled: true, initial_run_completed: false }
    }
}

/// What is to be done at the start of the application.
#[derive(Debug, Clone, Copy, PartialEq, Eq, Structural)]
pub struct InitialRunPlan {
    /// Whether the first run is reported.
    pub track: bool,
    /// Whether the configuration has changed and is to be stored.
    pub store: bool,
}

impl TelemetryConfig {
    /// Turns telemetry on or off.
    pub fn set_enabled(&mut self, enabled: bool)
        ensures
            final(self).enabled == enabled,
            final(self).initial_run_completed == old(self).initial_run_completed,
    {
        self.enabled = enabled;
    }

    /// Notes that the first run is over.
    pub fn mark_initial_run_completed(&mut self)
        ensures
            final(self).initial_run_completed,
            final(self).enabled == old(self).enabled,
    {
        self.initial_run_completed = true;
    }

    /// Decides what the first run asks for: it is reported once, and only while
    /// telemetry is on; either way it is over afterwards.
    pub fn handle_initial_run_telemetry(&mut self) -> (plan: InitialRunPlan)
        ensures
            plan.track == (old(self).enabled && !old(self).initial_run_completed),
            plan.store == !old(self).initial_run_completed,
            final(self).initial_run_completed,
            final(self).enabled == old(self).enabled,
    {
        let first: bool = !self.initial_run_completed;
        let plan = InitialRunPlan { track: self.enabled && first, store: first };
        self.initial_run_completed = true;
        plan
    }
}

/// A capital letter of the Latin alphabet.
pub open spec fn is_capital(c: char) -> bool {
    65 <= (c as u32) && (c as u32) <= 90
}

/// Whether a text is a country code: two capital letters.
pub open spec fn is_country_code(s: Seq<char>) -> bool {
    s.len() == 2 && is_capital(s[0]) && is_capital(s[1])
}

/// The index of the first `c` in `s` at or after `from`, or the length of `s`.
pub open spec fn find_from(s: Seq<char>, c: char, from: int) -> int
    decreases s.len() - from,
{
    if from < 0 || from >= s.len() {
        s.len() as int
    } else if s[from] == c {
        from
    } else {
        find_from(s, c, from + 1)
    }
}

/// The country that a locale such as `en_US.UTF-8` names: what stands between the
/// first `_` and the next `_`, within the part before the first `.`, where that
/// is a country code.
pub open spec fn locale_country(locale: Seq<char>) -> Option<Seq<char>> {
    let head = locale.subrange(0, find_from(locale, '.', 0));
    let first = find_from(head, '_', 0);
    if first >= head.len() {
        None
    } else {
        let code = head.subrange(first + 1, find_from(head, '_', first + 1));
        if is_country_code(code) {
            Some(code)
        } else {
            None
        }
    }
}

fn find_char(s: &str, c: char, from: usize, end: usize) -> (r: usize)
    requires
        from <= end <= s@.len(),
    ensures
        r == find_from(s@.subrange(0, end as int), c, from as int),
        from <= r <= end,
{
    let ghost head = s@.subrange(0, end as int);
    let mut i: usize = from;
    while i < end
        invariant
            from <= i <= end <= s@.len(),
            head == s@.subrange(0, end as int),
            find_from(head, c, i as int) == find_from(head, c, from as int),
        decreases end - i,
    {
        if s.get_char(i) == c {
            return i;
        }
        i = i + 1;
    }
    i
}

/// Whether a text is a country code.
pub fn country_code(s: &str) -> (r: bool)
    ensures
        r == is_country_code(s@),
{
    if s.unicode_len() != 2 {
        return false;
    }
    let a: u32 = s.get_char(0) as u32;
    let b: u32 = s.get_char(1) as u32;
    65 <= a && a <= 90 && 65 <= b && b <= 90
}

/// Reads the user's country out of a locale.
pub fn country_from_locale(locale: &str) -> (r: Option<String>)
    ensures
        match r {
            Some(code) => locale_country(locale@) == Some(code@),
            None => locale_country(locale@).is_none(),
        },
{
    let n: usize = locale.unicode_len();
    proof {
        assert(locale@.subrange(0, n as int) =~= locale@);
    }
    let dot: usize = find_char(locale, '.', 0, n);
    let ghost head = locale@.subrange(0, dot as int);
    let first: usize = find_char(locale, '_', 0, dot);
    if first >= dot {
        return None;
    }
    let second: usize = find_char(locale, '_', first + 1, dot);
    let code: &str = locale.substring_char(first + 1, second);
    proof {
        assert(locale@.subrange(first + 1, second as int) =~= head.subrange(
            first + 1,
            second as int,
        ));
    }
    if country_code(code) {
        Some(String::from_str(code))
    } else {
        None
    }
}

} // verus!
