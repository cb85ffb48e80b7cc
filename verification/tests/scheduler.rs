use pawn_appetit::progress::calculate_progress;
use pawn_appetit::scheduler::{Scheduler, Verdict};
use pawn_appetit::types::{GoMode, PlayersTime};

#[test]
fn the_first_snapshot_is_sent_at_once() {
    let mut s = Scheduler::new();
    assert_eq!(s.offer(1, 1000), Verdict::Emit);
    assert_eq!(s.last_emit_at, Some(1000));
    assert_eq!(s.emitted_depth, 1);
    assert!(!s.pending);
}

#[test]
fn a_deeper_snapshot_is_sent_at_once() {
    let mut s = Scheduler::new();
    assert_eq!(s.offer(5, 0), Verdict::Emit);
    assert_eq!(s.offer(6, 1), Verdict::Emit);
    assert_eq!(s.offer(7, 1), Verdict::Emit);
    assert_eq!(s.emitted_depth, 7);
    assert_eq!(s.last_emit_at, Some(1));
}

#[test]
fn a_snapshot_of_the_same_depth_waits_fifty_milliseconds() {
    let mut s = Scheduler::new();
    assert_eq!(s.offer(5, 0), Verdict::Emit);
    assert_eq!(s.offer(5, 49), Verdict::Hold);
    assert!(s.pending);
    assert_eq!(s.last_emit_at, Some(0));
    assert!(!s.answer(true, 49));
    assert_eq!(s.offer(5, 50), Verdict::Ask);
    assert!(s.pending);
    assert!(s.answer(true, 50));
    assert!(!s.pending);
    assert_eq!(s.last_emit_at, Some(50));
    assert!(!s.answer(true, 200));
}

#[test]
fn a_waiting_snapshot_is_sent_by_the_timer_after_a_hundred_milliseconds() {
    let mut s = Scheduler::new();
    assert_eq!(s.offer(5, 0), Verdict::Emit);
    assert_eq!(s.offer(5, 10), Verdict::Hold);
    assert!(!s.tick(20));
    assert!(!s.tick(99));
    assert!(s.pending);
    assert!(s.tick(100));
    assert!(!s.pending);
    assert_eq!(s.last_emit_at, Some(100));
    assert!(!s.tick(110));
    assert!(!s.tick(500));
}

#[test]
fn the_timer_sends_nothing_when_nothing_waits() {
    let mut s = Scheduler::new();
    assert!(!s.tick(1000));
    assert_eq!(s.offer(3, 1000), Verdict::Emit);
    assert!(!s.tick(5000));
}

#[test]
fn a_clock_that_goes_back_counts_as_no_time() {
    let mut s = Scheduler::new();
    assert_eq!(s.offer(5, 1000), Verdict::Emit);
    assert_eq!(s.offer(5, 900), Verdict::Hold);
    assert!(!s.answer(true, 900));
    assert!(!s.tick(900));
}

#[test]
fn at_most_twenty_snapshots_of_one_depth_in_a_second() {
    let mut s = Scheduler::new();
    assert_eq!(s.offer(9, 0), Verdict::Emit);
    let mut sent = 1;
    let mut now = 1;
    while now < 1000 {
        if s.offer(9, now) == Verdict::Ask && s.answer(true, now) {
            sent += 1;
        }
        if s.tick(now) {
            sent += 1;
        }
        now += 1;
    }
    assert_eq!(sent, 20);
}

#[test]
fn forgetting_and_restarting() {
    let mut s = Scheduler::new();
    assert_eq!(s.offer(9, 0), Verdict::Emit);
    assert_eq!(s.offer(9, 1), Verdict::Hold);
    s.forget();
    assert_eq!(s.emitted_depth, 0);
    assert!(!s.pending);
    assert_eq!(s.last_emit_at, Some(0));
    assert_eq!(s.offer(1, 2), Verdict::Emit);
    s.restart();
    assert_eq!(s.last_emit_at, None);
    assert_eq!(s.offer(0, 3), Verdict::Emit);
}

#[test]
fn a_snapshot_that_the_limiter_holds_back_is_sent_by_the_timer() {
    let mut s = Scheduler::new();
    assert_eq!(s.offer(4, 0), Verdict::Emit);
    assert_eq!(s.offer(4, 60), Verdict::Ask);
    assert!(!s.answer(false, 60));
    assert!(s.pending);
    assert!(!s.tick(99));
    assert!(s.tick(100));
    assert!(!s.answer(true, 200));
}

#[test]
fn progress_by_depth() {
    assert_eq!(calculate_progress(&GoMode::Depth(20), 10, 0, 0), 5000);
    assert_eq!(calculate_progress(&GoMode::Depth(20), 20, 0, 0), 10000);
    assert_eq!(calculate_progress(&GoMode::Depth(20), 25, 0, 0), 10000);
    assert_eq!(calculate_progress(&GoMode::Depth(3), 1, 0, 0), 3333);
    assert_eq!(calculate_progress(&GoMode::Depth(0), 0, 0, 0), 10000);
}

#[test]
fn progress_by_time_and_nodes() {
    assert_eq!(calculate_progress(&GoMode::Time(2000), 1, 0, 500), 2500);
    assert_eq!(calculate_progress(&GoMode::Time(2000), 1, 0, 4000), 10000);
    assert_eq!(calculate_progress(&GoMode::Nodes(1_000_000), 1, 1, 0), 0);
    assert_eq!(calculate_progress(&GoMode::Nodes(1_000_000), 1, 999_999, 0), 9999);
    assert_eq!(calculate_progress(&GoMode::Nodes(u64::MAX), 1, u32::MAX, 0), 0);
}

#[test]
fn progress_without_a_goal() {
    let clocks = PlayersTime { white: 1, black: 2, winc: 3, binc: 4 };
    assert_eq!(calculate_progress(&GoMode::PlayersTime(clocks), 30, 5, 6), 9999);
    assert_eq!(calculate_progress(&GoMode::Infinite, 30, 5, 6), 9999);
}
