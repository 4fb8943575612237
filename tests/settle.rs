use sensor_bringup::error::BringupError;
use sensor_bringup::settle::{SettleAction, SettleMonitor};

/// Drives the monitor with a fake clock; the line reads high from `rise_ms`
/// on. Returns the final action and the number of looks at the line.
fn run(deadline_ms: u32, interval_ms: u32, rise_ms: Option<u32>) -> (SettleAction, u32) {
    let mut m = SettleMonitor::new(deadline_ms, interval_ms);
    let mut now: u32 = 0;
    let mut looks: u32 = 0;
    loop {
        let high = rise_ms.map_or(false, |r| now >= r);
        looks += 1;
        match m.observe(high) {
            SettleAction::Wait { delay_ms } => now += delay_ms,
            other => return (other, looks),
        }
    }
}

#[test]
fn line_already_high_settles_at_zero() {
    assert_eq!(run(5000, 1, Some(0)), (SettleAction::Settled { elapsed_ms: 0 }, 1));
}

#[test]
fn line_rising_after_fifty_ms_reports_fifty() {
    assert_eq!(run(5000, 1, Some(50)), (SettleAction::Settled { elapsed_ms: 50 }, 51));
}

#[test]
fn coarse_interval_reports_first_poll_after_rise() {
    assert_eq!(run(10, 3, Some(7)).0, SettleAction::Settled { elapsed_ms: 9 });
}

#[test]
fn rise_at_deadline_still_settles() {
    assert_eq!(run(10, 4, Some(10)).0, SettleAction::Settled { elapsed_ms: 10 });
}

#[test]
fn stuck_line_fails_at_the_deadline() {
    let (action, looks) = run(5000, 1, None);
    assert_eq!(
        action,
        SettleAction::Failed(BringupError::LineStuckTimeout { elapsed_ms: 5000 })
    );
    assert_eq!(looks, 5001);
}

#[test]
fn last_wait_is_cut_to_the_deadline() {
    let mut m = SettleMonitor::new(10, 4);
    assert_eq!(m.observe(false), SettleAction::Wait { delay_ms: 4 });
    assert_eq!(m.observe(false), SettleAction::Wait { delay_ms: 4 });
    assert_eq!(m.observe(false), SettleAction::Wait { delay_ms: 2 });
    assert_eq!(
        m.observe(false),
        SettleAction::Failed(BringupError::LineStuckTimeout { elapsed_ms: 10 })
    );
}

#[test]
fn zero_deadline_fails_on_first_low_look() {
    assert_eq!(
        run(0, 1, None),
        (SettleAction::Failed(BringupError::LineStuckTimeout { elapsed_ms: 0 }), 1)
    );
}

#[test]
fn largest_deadline_does_not_overflow() {
    let mut m = SettleMonitor::new(u32::MAX, u32::MAX);
    assert_eq!(m.observe(false), SettleAction::Wait { delay_ms: u32::MAX });
    assert_eq!(m.elapsed_ms, u32::MAX);
    assert_eq!(
        m.observe(false),
        SettleAction::Failed(BringupError::LineStuckTimeout { elapsed_ms: u32::MAX as u64 })
    );
}
