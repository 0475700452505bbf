use auction_settlement::scheduler::{Scheduler, SchedulerPhase};

// The scheduler alternates waiting and processing forever; a failed pass is
// counted and never fatal.
#[test]
fn scheduler_survives_failed_passes() {
    let mut s = Scheduler::new();
    assert_eq!(s.phase, SchedulerPhase::Idle);
    assert_eq!(s.passes_run, 0);
    assert_eq!(s.passes_failed, 0);

    s.begin_pass();
    assert_eq!(s.phase, SchedulerPhase::Processing);
    s.finish_pass(true);
    assert_eq!(s.phase, SchedulerPhase::Idle);
    assert_eq!(s.passes_run, 1);
    assert_eq!(s.passes_failed, 1);

    s.begin_pass();
    s.finish_pass(false);
    assert_eq!(s.phase, SchedulerPhase::Idle);
    assert_eq!(s.passes_run, 2);
    assert_eq!(s.passes_failed, 1);
}
