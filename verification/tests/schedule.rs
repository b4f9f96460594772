use stream_escrow::error::{ProgramError, TokenError};
use stream_escrow::schedule::{fee_split, release_at, Schedule};

fn custom(e: TokenError) -> ProgramError {
    ProgramError::Custom(e.code())
}

#[test]
fn linear_release() {
    let s = Schedule::new(1000, 2000, 1000);
    assert_eq!(s.allowed_amt(1500), 500);
    let s = s.withdraw(400, 1500).unwrap();
    assert_eq!(s.withdrawn, 400);
    assert_eq!(fee_split(400), (1, 399));
    assert_eq!(s.amount - s.withdrawn, 600);
    let s = s.withdraw(600, 2000).unwrap();
    assert_eq!(s.withdrawn, s.amount);
}

#[test]
fn pause_and_resume() {
    let s = Schedule::new(1000, 2000, 1000);
    let paused = s.pause(1400).unwrap();
    assert_eq!(paused.paused, 1);
    assert_eq!(paused.withdraw_limit, 400);
    assert_eq!(paused.paused_at, 1400);
    assert_eq!(paused.withdraw(500, 1600), Err(ProgramError::InsufficientFunds));
    let resumed = paused.resume(1600).unwrap();
    assert_eq!(resumed.start_time, 1200);
    assert_eq!(resumed.end_time, 2200);
    assert_eq!(resumed.paused, 0);
    assert_eq!(resumed.paused_at, 0);
    assert_eq!(resumed.allowed_amt(1600), 400);
}

#[test]
fn pause_freezes_accrual() {
    let s = Schedule::new(1000, 2000, 1000).withdraw(100, 1200).unwrap();
    let paused = s.pause(1400).unwrap();
    assert_eq!(paused.withdraw_limit, 300);
    assert_eq!(paused.withdraw(301, 1900), Err(ProgramError::InsufficientFunds));
    let after = paused.withdraw(300, 1900).unwrap();
    assert_eq!(after.withdraw_limit, 0);
    assert_eq!(after.withdrawn, 400);
    assert_eq!(after.withdraw(1, 5000), Err(ProgramError::InsufficientFunds));
}

#[test]
fn cancel_mid_flight() {
    let s = Schedule::new(1000, 2000, 1000);
    let settled = s.cancel(1700).unwrap();
    assert_eq!(settled.paid, 700);
    assert_eq!(settled.refund, 300);
    assert_eq!(fee_split(700), (1, 699));
}

#[test]
fn cancel_before_start_pays_nothing() {
    let s = Schedule::new(1000, 2000, 1000);
    let settled = s.cancel(500).unwrap();
    assert_eq!(settled.paid, 0);
    assert_eq!(settled.refund, 1000);
}

#[test]
fn cancel_after_end_fails() {
    let s = Schedule::new(1000, 2000, 1000);
    assert_eq!(s.cancel(2000), Err(custom(TokenError::TimeEnd)));
}

#[test]
fn release_boundaries() {
    assert_eq!(release_at(1000, 2000, 1000, 1000), 0);
    assert_eq!(release_at(1000, 2000, 1000, 999), 0);
    assert_eq!(release_at(1000, 2000, 1000, 2000), 1000);
    assert_eq!(release_at(1000, 2000, 1000, u64::MAX), 1000);
    assert_eq!(release_at(1000, 2000, 1001, 1500), 500);
    assert_eq!(release_at(1000, 2000, 999, 1500), 499);
    assert_eq!(release_at(0, 3, 300, 1), 100);
    assert_eq!(release_at(0, 3, 10, 2), 6);
}

#[test]
fn release_does_not_overflow() {
    assert_eq!(release_at(0, u64::MAX, u64::MAX, u64::MAX - 1), u64::MAX - 1);
    assert_eq!(release_at(0, 2, u64::MAX, 1), u64::MAX / 2);
}

#[test]
fn withdraw_at_end_takes_the_rest() {
    let s = Schedule::new(10, 20, 500).withdraw(100, 12).unwrap();
    assert_eq!(s.withdraw(401, 20), Err(ProgramError::InsufficientFunds));
    assert_eq!(s.withdraw(400, 20).unwrap().withdrawn, 500);
}

#[test]
fn withdraw_before_start_fails() {
    let s = Schedule::new(1000, 2000, 1000);
    assert_eq!(s.withdraw(0, 1000), Err(custom(TokenError::StreamNotStarted)));
}

#[test]
fn withdrawn_never_decreases() {
    let mut s = Schedule::new(0, 100, 1000);
    let mut last = 0;
    for now in 1..=100u64 {
        let open = s.allowed_amt(now) - s.withdrawn;
        s = s.withdraw(open / 2, now).unwrap();
        assert!(s.withdrawn >= last);
        assert!(s.withdrawn <= s.amount);
        last = s.withdrawn;
    }
}

#[test]
fn pause_errors() {
    let s = Schedule::new(1000, 2000, 1000);
    assert_eq!(s.pause(2000), Err(custom(TokenError::TimeEnd)));
    assert_eq!(s.pause(1000), Err(custom(TokenError::StreamNotStarted)));
    let paused = s.pause(1500).unwrap();
    assert_eq!(paused.pause(1600), Err(custom(TokenError::AlreadyPaused)));
}

#[test]
fn resume_errors() {
    let s = Schedule::new(1000, 2000, 1000);
    assert_eq!(s.resume(1500), Err(custom(TokenError::AlreadyResumed)));
    let pending = Schedule::new_pending(1000, 2000, 1000);
    assert_eq!(pending.resume(1500), Err(custom(TokenError::AlreadyResumed)));
    let paused = s.pause(1500).unwrap();
    assert_eq!(paused.resume(1499), Err(custom(TokenError::Overflow)));
    let late = Schedule::new(1000, u64::MAX, 1000).pause(1500).unwrap();
    assert_eq!(late.resume(1501), Err(custom(TokenError::Overflow)));
}

#[test]
fn fund_adds_to_the_amount() {
    let s = Schedule::new(1000, 2000, 1000);
    let funded = s.fund(3000, 500).unwrap();
    assert_eq!(funded.end_time, 3000);
    assert_eq!(funded.amount, 1500);
    assert_eq!(s.fund(1000, 1), Err(custom(TokenError::InvalidInstruction)));
    assert_eq!(s.fund(3000, u64::MAX), Err(custom(TokenError::Overflow)));
}

#[test]
fn legacy_withdraw_shrinks_the_amount() {
    let s = Schedule::new(1000, 2000, 1000);
    let next = s.withdraw_legacy(400, 1500).unwrap();
    assert_eq!(next.amount, 600);
    assert_eq!(next.withdrawn, 0);
    assert_eq!(s.withdraw_legacy(501, 1500), Err(ProgramError::InsufficientFunds));
    assert_eq!(s.withdraw_legacy(1, 1000), Err(custom(TokenError::StreamNotStarted)));
}

#[test]
fn commission_is_a_quarter_percent() {
    assert_eq!(fee_split(10_000), (25, 9_975));
    assert_eq!(fee_split(399), (0, 399));
    assert_eq!(fee_split(0), (0, 0));
    assert_eq!(fee_split(u64::MAX).0, (u64::MAX as u128 * 25 / 10_000) as u64);
}

#[test]
fn pending_schedule_releases_nothing() {
    let pending = Schedule::new_pending(10, 20, 500);
    assert_eq!(pending.paused, 1);
    assert_eq!(pending.withdraw(1, 15), Err(ProgramError::InsufficientFunds));
    assert_eq!(pending.withdraw(0, 15).unwrap().withdrawn, 0);
}
