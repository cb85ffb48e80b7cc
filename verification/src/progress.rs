//! How far a search has come, in hundredths of a percent.

use vstd::prelude::*;
use crate::types::GoMode;

verus! {

/// A search that has ended: 100.00%.
pub const FINISHED: u32 = 10000;

/// A search without a goal of its own: 99.99% until it ends.
pub const UNBOUNDED: u32 = 9999;

/// The share of `goal` that `done` is, in hundredths of a percent and never above
/// 100%; a goal of nothing is met at once.
pub open spec fn share(done: u64, goal: u64) -> int {
    if goal == 0 || done >= goal {
        FINISHED as int
    } else {
        (done as int) * 10000 / (goal as int)
    }
}

/// How far a search in `mode` has come at a depth, after a number of nodes and
/// of milliseconds.
pub open spec fn progress_of(mode: GoMode, depth: u32, nodes: u32, elapsed_ms: u64) -> int {
    match mode {
        GoMode::Depth(goal) => share(depth as u64, goal as u64),
        GoMode::Time(goal) => share(elapsed_ms, goal as u64),
        GoMode::Nodes(goal) => share(nodes as u64, goal),
        GoMode::PlayersTime(_) => UNBOUNDED as int,
        GoMode::Infinite => UNBOUNDED as int,
    }
}

/// Progress never leaves the range from 0% to 100%.
pub proof fn lemma_progress_bounds(mode: GoMode, depth: u32, nodes: u32, elapsed_ms: u64)
    ensures
        0 <= progress_of(mode, depth, nodes, elapsed_ms) <= FINISHED,
{
    match mode {
        GoMode::Depth(goal) => lemma_share_bounds(depth as u64, goal as u64),
        GoMode::Time(goal) => lemma_share_bounds(elapsed_ms, goal as u64),
        GoMode::Nodes(goal) => lemma_share_bounds(nodes as u64, goal),
        _ => {},
    }
}

pub proof fn lemma_share_bounds(done: u64, goal: u64)
    ensures
        0 <= share(done, goal) <= FINISHED,
{
    if goal != 0 && done < goal {
        assert(0 <= (done as int) * 10000 / (goal as int) < 10000) by (nonlinear_arith)
            requires
                0 <= done < goal,
        ;
    }
}

fn ratio(done: u64, goal: u64) -> (r: u32)
    ensures
        r == share(done, goal),
        r <= FINISHED,
{
    if goal == 0 || done >= goal {
        FINISHED
    } else {
        proof {
            lemma_share_bounds(done, goal);
        }
        let wide: u128 = (done as u128) * 10000 / (goal as u128);
        wide as u32
    }
}

/// Computes how far a search has come, in hundredths of a percent.
pub fn calculate_progress(go_mode: &GoMode, depth: u32, nodes: u32, elapsed_ms: u64) -> (r: u32)
    ensures
        r == progress_of(*go_mode, depth, nodes, elapsed_ms),
        r <= FINISHED,
{
    match go_mode {
        GoMode::Depth(goal) => ratio(depth as u64, *goal as u64),
        GoMode::Time(goal) => ratio(elapsed_ms, *goal as u64),
        GoMode::Nodes(goal) => ratio(nodes as u64, *goal),
        GoMode::PlayersTime(_) => UNBOUNDED,
        GoMode::Infinite => UNBOUNDED,
    }
}

} // verus!
