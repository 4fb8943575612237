use sensor_bringup::error::BringupError;
use sensor_bringup::handshake::{Handshake, HandshakeAction};

const BUSY: [u8; 4] = [0x20, 0x39, 0x00, 0x00];

/// Runs the handshake on a line that stays low against a controller that
/// answers with `replies` in turn, repeating the last one; returns the final
/// action and the number of reads.
fn run_low(max_attempts: u32, replies: &[Vec<u8>]) -> (HandshakeAction, u32) {
    let mut h = Handshake::new(max_attempts, 100);
    let mut reads: u32 = 0;
    loop {
        match h.on_line(false) {
            HandshakeAction::WakeAndRead => {}
            other => return (other, reads),
        }
        let i = (reads as usize).min(replies.len() - 1);
        reads += 1;
        match h.on_reply(&replies[i]) {
            HandshakeAction::WaitThenCheckLine { delay_ms } => assert_eq!(delay_ms, 100),
            other => return (other, reads),
        }
    }
}

#[test]
fn busy_k_times_then_event_takes_k_plus_one_reads() {
    let cap: u32 = 10;
    for k in 0..cap {
        let mut replies: Vec<Vec<u8>> = vec![BUSY.to_vec(); k as usize];
        replies.push(vec![0x11, 0x09, 0x01, 0x03]);
        let (action, reads) = run_low(cap, &replies);
        assert_eq!(action, HandshakeAction::Accepted { cause: 3 });
        assert_eq!(reads, k + 1);
    }
}

#[test]
fn busy_forever_times_out_at_the_budget() {
    let (action, reads) = run_low(7, &[BUSY.to_vec()]);
    assert_eq!(reads, 7);
    assert_eq!(
        action,
        HandshakeAction::Failed(BringupError::LineStuckTimeout { elapsed_ms: 700 })
    );
}

#[test]
fn busy_up_to_the_budget_times_out() {
    let mut replies: Vec<Vec<u8>> = vec![BUSY.to_vec(); 5];
    replies.push(vec![0x11, 0x09, 0x01, 0x01]);
    let (action, reads) = run_low(5, &replies);
    assert_eq!(reads, 5);
    assert_eq!(
        action,
        HandshakeAction::Failed(BringupError::LineStuckTimeout { elapsed_ms: 500 })
    );
}

#[test]
fn malformed_reply_fails_without_retry() {
    let (action, reads) = run_low(10, &[vec![0x01, 0x02]]);
    assert_eq!(action, HandshakeAction::Failed(BringupError::ProtocolViolation));
    assert_eq!(reads, 1);
}

#[test]
fn invalid_cause_fails_without_retry() {
    let (action, reads) = run_low(10, &[BUSY.to_vec(), vec![0x11, 0x09, 0x01, 0x07]]);
    assert_eq!(action, HandshakeAction::Failed(BringupError::ProtocolViolation));
    assert_eq!(reads, 2);
}

#[test]
fn high_line_releases_without_a_read() {
    let mut h = Handshake::new(10, 100);
    assert_eq!(h.on_line(true), HandshakeAction::Released);
    assert_eq!(h.attempts, 0);
}

#[test]
fn zero_budget_fails_at_once() {
    let mut h = Handshake::new(0, 100);
    assert_eq!(
        h.on_line(false),
        HandshakeAction::Failed(BringupError::LineStuckTimeout { elapsed_ms: 0 })
    );
}

#[test]
fn largest_budget_reports_elapsed_without_overflow() {
    let mut h = Handshake::new(u32::MAX, u32::MAX);
    h.attempts = u32::MAX;
    assert_eq!(
        h.on_line(false),
        HandshakeAction::Failed(BringupError::LineStuckTimeout {
            elapsed_ms: (u32::MAX as u64) * (u32::MAX as u64)
        })
    );
}
