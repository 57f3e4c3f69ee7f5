use delfiles::engine::{
    Action, Config, Engine, Event, Halt, Outcome, RunReport, Step, TargetError,
};

fn config(dry_run: bool, stop_on_error: bool, show_detail: bool, print_summary: bool) -> Config {
    Config { dry_run, stop_on_error, show_detail, print_summary }
}

fn path(p: &str) -> String {
    p.to_string()
}

fn report(total_examined: u64, removed: u64, skipped: u64, bytes_freed: u64) -> RunReport {
    RunReport { total_examined, removed, skipped, bytes_freed }
}

#[test]
fn one_denied_removal_is_skipped() {
    let mut e = Engine::new(config(false, false, false, false));
    let a = path("a.txt");
    let b = path("b.txt");
    let s = e.examine(&a, Ok(100));
    assert_eq!(s.action, Action::Remove);
    let s = e.conclude(&a, Err(TargetError::TargetAccessDenied));
    assert_eq!(
        s,
        Step {
            action: Action::Proceed,
            event: Some(Event::Warning { path: a.clone(), error: TargetError::TargetAccessDenied }),
        }
    );
    assert_eq!(e.examine(&b, Ok(200)).action, Action::Remove);
    assert_eq!(e.conclude(&b, Ok(())), Step { action: Action::Proceed, event: None });
    assert_eq!(e.report(), report(2, 1, 1, 200));
    assert_eq!(e.outcome(), Outcome::Completed);
}

#[test]
fn empty_run_reports_zeros() {
    let e = Engine::new(config(false, false, true, false));
    assert_eq!(e.report(), report(0, 0, 0, 0));
    assert_eq!(e.outcome(), Outcome::Completed);
    assert_eq!(e.summary(), None);
}

#[test]
fn empty_run_summary_is_all_zero() {
    let e = Engine::new(config(false, true, true, true));
    assert_eq!(
        e.summary(),
        Some(Event::Summary { total_examined: 0, removed: 0, skipped: 0, bytes_freed: "0".to_string() })
    );
}

#[test]
fn best_effort_examines_every_target() {
    let mut e = Engine::new(config(false, false, false, true));
    let names = ["a", "b", "c", "d", "e"];
    let mut i: usize = 0;
    while i < names.len() {
        let p = path(names[i]);
        if i == 1 {
            let s = e.examine(&p, Err(TargetError::TargetNotFound));
            assert_eq!(s.action, Action::Proceed);
            assert_eq!(
                s.event,
                Some(Event::Warning { path: p.clone(), error: TargetError::TargetNotFound })
            );
        } else {
            assert_eq!(e.examine(&p, Ok(1000)).action, Action::Remove);
            let removal = if i == 3 { Err(TargetError::RemoveFailed) } else { Ok(()) };
            assert_eq!(e.conclude(&p, removal).action, Action::Proceed);
        }
        i += 1;
    }
    let r = e.report();
    assert_eq!(r, report(5, 3, 2, 3000));
    assert_eq!(r.removed + r.skipped, r.total_examined);
    assert_eq!(e.outcome(), Outcome::Completed);
    assert_eq!(
        e.summary(),
        Some(Event::Summary { total_examined: 5, removed: 3, skipped: 2, bytes_freed: "3,000".to_string() })
    );
}

#[test]
fn dry_run_never_asks_for_removal() {
    let mut e = Engine::new(config(true, false, false, true));
    let sizes: [u64; 3] = [1500, 0, 250000];
    for (i, size) in sizes.iter().enumerate() {
        let p = path(&format!("f{i}"));
        let s = e.examine(&p, Ok(*size));
        assert_eq!(s, Step { action: Action::Proceed, event: None });
    }
    assert_eq!(e.report(), report(3, 3, 0, 251500));
    assert_eq!(e.outcome(), Outcome::Completed);
    assert_eq!(
        e.summary(),
        Some(Event::Summary { total_examined: 3, removed: 3, skipped: 0, bytes_freed: "251,500".to_string() })
    );
}

#[test]
fn dry_run_still_skips_unreadable_targets() {
    let mut e = Engine::new(config(true, false, false, false));
    let p = path("gone");
    let s = e.examine(&p, Err(TargetError::StatFailed));
    assert_eq!(
        s,
        Step {
            action: Action::Proceed,
            event: Some(Event::Warning { path: p.clone(), error: TargetError::StatFailed }),
        }
    );
    assert_eq!(e.report(), report(1, 0, 1, 0));
}

#[test]
fn stop_on_error_halts_at_the_failing_target() {
    let mut e = Engine::new(config(false, true, false, true));
    let a = path("a");
    let b = path("b");
    assert_eq!(e.examine(&a, Ok(10)).action, Action::Remove);
    assert_eq!(e.conclude(&a, Ok(())).action, Action::Proceed);
    assert_eq!(e.examine(&b, Ok(20)).action, Action::Remove);
    let s = e.conclude(&b, Err(TargetError::TargetAccessDenied));
    assert_eq!(s, Step { action: Action::Stop, event: None });
    assert_eq!(e.report(), report(2, 1, 0, 10));
    assert_eq!(
        e.outcome(),
        Outcome::Halted(Halt { position: 2, path: b.clone(), error: TargetError::TargetAccessDenied })
    );
    assert_eq!(e.summary(), None);
}

#[test]
fn stop_on_error_halts_on_a_failed_size_query() {
    let mut e = Engine::new(config(false, true, true, true));
    let a = path("missing");
    let s = e.examine(&a, Err(TargetError::TargetNotFound));
    assert_eq!(s, Step { action: Action::Stop, event: None });
    assert_eq!(e.report(), report(1, 0, 0, 0));
    assert_eq!(
        e.outcome(),
        Outcome::Halted(Halt { position: 1, path: a.clone(), error: TargetError::TargetNotFound })
    );
}

#[test]
fn detail_event_comes_before_removal() {
    let mut e = Engine::new(config(false, false, true, false));
    let a = path("a.log");
    let s = e.examine(&a, Ok(4096));
    assert_eq!(
        s,
        Step { action: Action::Remove, event: Some(Event::Detail { path: a.clone(), size: 4096 }) }
    );
    assert_eq!(e.report(), report(0, 0, 0, 0));
    assert_eq!(e.conclude(&a, Ok(())).event, None);
    assert_eq!(e.report(), report(1, 1, 0, 4096));
}

#[test]
fn detail_event_in_dry_run() {
    let mut e = Engine::new(config(true, false, true, false));
    let a = path("x");
    let s = e.examine(&a, Ok(7));
    assert_eq!(
        s,
        Step { action: Action::Proceed, event: Some(Event::Detail { path: a.clone(), size: 7 }) }
    );
}

#[test]
fn removal_of_a_vanished_target_is_skipped() {
    let mut e = Engine::new(config(false, false, false, false));
    let a = path("a");
    e.examine(&a, Ok(5));
    let s = e.conclude(&a, Err(TargetError::TargetNotFound));
    assert_eq!(
        s.event,
        Some(Event::Warning { path: a.clone(), error: TargetError::TargetNotFound })
    );
    assert_eq!(e.report(), report(1, 0, 1, 0));
}

#[test]
fn large_byte_totals_are_grouped_in_the_summary() {
    let mut e = Engine::new(config(true, false, false, true));
    let a = path("big");
    e.examine(&a, Ok(10000000));
    assert_eq!(
        e.summary(),
        Some(Event::Summary { total_examined: 1, removed: 1, skipped: 0, bytes_freed: "10,000,000".to_string() })
    );
}
