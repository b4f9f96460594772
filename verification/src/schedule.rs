//! The release calculator and the state machine of one stream's schedule.
use vstd::prelude::*;
use crate::error::{custom, ProgramError, TokenError};

verus! {

/// Commission on every release, in basis points.
pub const FEE_BPS: u64 = 25;

/// Basis points in the whole.
pub const BPS_DENOMINATOR: u64 = 10_000;

/// What a schedule with the given window and total has released at `now`:
/// nothing up to the start, all of it from the end on, and in between the
/// share of the elapsed time, rounded down.
pub open spec fn released(start: u64, end: u64, amount: u64, now: u64) -> int {
    if now >= end {
        amount as int
    } else if now > start {
        (now - start) * amount / (end - start)
    } else {
        0
    }
}

/// The commission that a release of `amount` pays.
pub open spec fn commission(amount: u64) -> int {
    amount * FEE_BPS / BPS_DENOMINATOR as int
}

/// The timing and the amounts of one stream.
#[derive(Clone, Copy, Debug, PartialEq, Eq, Structural)]
pub struct Schedule {
    pub start_time: u64,
    pub end_time: u64,
    pub paused: u64,
    pub withdraw_limit: u64,
    pub amount: u64,
    pub withdrawn: u64,
    pub paused_at: u64,
}

/// What a cancel pays out and what it gives back.
#[derive(Clone, Copy, Debug, PartialEq, Eq, Structural)]
pub struct Settlement {
    /// Released and not yet withdrawn: goes to the recipient, less commission.
    pub paid: u64,
    /// Not released: stays with the sender's vault.
    pub refund: u64,
}

pub proof fn lemma_linear_bounds(elapsed: int, amount: int, span: int)
    by (nonlinear_arith)
    requires
        0 <= elapsed <= span,
        0 < span,
        0 <= amount,
    ensures
        0 <= elapsed * amount / span <= amount,
        elapsed * amount <= span * amount,
{
}

pub proof fn lemma_linear_monotone(a: int, b: int, amount: int, span: int)
    by (nonlinear_arith)
    requires
        0 <= a <= b,
        0 < span,
        0 <= amount,
    ensures
        a * amount / span <= b * amount / span,
{
}

pub proof fn lemma_half(half: int, amount: int)
    by (nonlinear_arith)
    requires
        0 < half,
        0 <= amount,
    ensures
        half * amount / (2 * half) == amount / 2,
{
}

/// A release never exceeds the total and is never negative.
pub proof fn lemma_released_bounds(start: u64, end: u64, amount: u64, now: u64)
    ensures
        0 <= released(start, end, amount, now) <= amount,
{
    if now < end && now > start {
        lemma_linear_bounds(now - start, amount as int, end - start);
    }
}

/// Computes `released(start, end, amount, now)`.
pub fn release_at(start: u64, end: u64, amount: u64, now: u64) -> (r: u64)
    ensures
        r == released(start, end, amount, now),
        r <= amount,
{
    if now >= end {
        amount
    } else if now > start {
        let elapsed: u128 = (now - start) as u128;
        let span: u128 = (end - start) as u128;
        proof {
            lemma_linear_bounds(elapsed as int, amount as int, span as int);
            assert(span * amount <= 0xffff_ffff_ffff_ffff * 0xffff_ffff_ffff_ffff) by (nonlinear_arith)
                requires
                    0 <= span <= 0xffff_ffff_ffff_ffff,
                    0 <= amount <= 0xffff_ffff_ffff_ffff,
            ;
        }
        let product: u128 = elapsed * (amount as u128);
        (product / span) as u64
    } else {
        0
    }
}

/// Splits a release into the commission and what the recipient receives.
pub fn fee_split(amount: u64) -> (r: (u64, u64))
    ensures
        r.0 == commission(amount),
        r.0 + r.1 == amount,
{
    let fee: u128 = (amount as u128) * (FEE_BPS as u128) / (BPS_DENOMINATOR as u128);
    let fee: u64 = fee as u64;
    (fee, amount - fee)
}

impl Schedule {
    /// The invariant of a stream's schedule. A paused schedule with
    /// `paused_at == 0` is one that waits for its approvals.
    pub open spec fn wf(self) -> bool {
        &&& self.start_time < self.end_time
        &&& self.withdrawn <= self.amount
        &&& (self.paused == 0 || self.paused == 1)
        &&& self.paused == 1 ==> self.withdraw_limit <= self.amount - self.withdrawn
        &&& self.paused == 0 ==> self.paused_at == 0
        &&& self.pending() ==> self.withdraw_limit == 0
    }

    /// The schedule waits for approvals: it has never run.
    pub open spec fn pending(self) -> bool {
        self.paused == 1 && self.paused_at == 0
    }

    /// What is still owed to the recipient at any time: the part of the total
    /// that has not been withdrawn.
    pub open spec fn residual(self) -> int {
        self.amount - self.withdrawn
    }

    /// What has been released at `now`.
    pub open spec fn released_at(self, now: u64) -> int {
        released(self.start_time, self.end_time, self.amount, now)
    }

    /// What a withdrawal at `now` may take at most: what is released and not
    /// yet withdrawn, and while paused no more than the withdraw limit.
    pub open spec fn available(self, now: u64) -> int {
        let open_amount = self.released_at(now) - self.withdrawn;
        if self.paused == 1 && self.withdraw_limit < open_amount {
            self.withdraw_limit as int
        } else {
            open_amount
        }
    }

    /// The failure of a withdrawal of `amount` at `now`, if it fails.
    pub open spec fn withdraw_error(self, amount: u64, now: u64) -> Option<ProgramError> {
        if now <= self.start_time {
            Some(custom(TokenError::StreamNotStarted))
        } else if self.released_at(now) < self.withdrawn {
            Some(custom(TokenError::Overflow))
        } else if amount > self.available(now) {
            Some(ProgramError::InsufficientFunds)
        } else {
            None
        }
    }

    /// The schedule after a withdrawal of `amount`.
    pub open spec fn after_withdraw(self, amount: u64) -> Schedule {
        Schedule {
            withdrawn: (self.withdrawn + amount) as u64,
            withdraw_limit: if self.paused == 1 {
                (self.withdraw_limit - amount) as u64
            } else {
                self.withdraw_limit
            },
            ..self
        }
    }

    /// The failure of a cancel at `now`, if it fails.
    pub open spec fn cancel_error(self, now: u64) -> Option<ProgramError> {
        if now >= self.end_time {
            Some(custom(TokenError::TimeEnd))
        } else if self.released_at(now) < self.withdrawn || self.amount < self.withdrawn {
            Some(custom(TokenError::Overflow))
        } else {
            None
        }
    }

    /// What a cancel at `now` settles.
    pub open spec fn settlement(self, now: u64) -> Settlement {
        Settlement {
            paid: (self.released_at(now) - self.withdrawn) as u64,
            refund: (self.amount - self.released_at(now)) as u64,
        }
    }

    /// The failure of a pause at `now`, if it fails.
    pub open spec fn pause_error(self, now: u64) -> Option<ProgramError> {
        if now >= self.end_time {
            Some(custom(TokenError::TimeEnd))
        } else if now <= self.start_time {
            Some(custom(TokenError::StreamNotStarted))
        } else if self.paused == 1 {
            Some(custom(TokenError::AlreadyPaused))
        } else if self.released_at(now) < self.withdrawn {
            Some(custom(TokenError::Overflow))
        } else {
            None
        }
    }

    /// The schedule after a pause at `now`.
    pub open spec fn after_pause(self, now: u64) -> Schedule {
        Schedule {
            paused: 1,
            withdraw_limit: (self.released_at(now) - self.withdrawn) as u64,
            paused_at: now,
            ..self
        }
    }

    /// The failure of a resume at `now`, if it fails.
    pub open spec fn resume_error(self, now: u64) -> Option<ProgramError> {
        if self.paused != 1 || self.paused_at == 0 {
            Some(custom(TokenError::AlreadyResumed))
        } else if now < self.paused_at || self.end_time + (now - self.paused_at) > u64::MAX
            || self.start_time + (now - self.paused_at) > u64::MAX {
            Some(custom(TokenError::Overflow))
        } else {
            None
        }
    }

    /// The schedule after a resume at `now`: the window moves forward by the
    /// time spent paused.
    pub open spec fn after_resume(self, now: u64) -> Schedule {
        Schedule {
            paused: 0,
            paused_at: 0,
            start_time: (self.start_time + (now - self.paused_at)) as u64,
            end_time: (self.end_time + (now - self.paused_at)) as u64,
            ..self
        }
    }

    /// The failure of a top-up by `delta` with the new end `end_time`, if it fails.
    pub open spec fn fund_error(self, end_time: u64, delta: u64) -> Option<ProgramError> {
        if end_time <= self.start_time {
            Some(custom(TokenError::InvalidInstruction))
        } else if self.amount + delta > u64::MAX {
            Some(custom(TokenError::Overflow))
        } else {
            None
        }
    }

    /// The schedule after a top-up.
    pub open spec fn after_fund(self, end_time: u64, delta: u64) -> Schedule {
        Schedule { end_time, amount: (self.amount + delta) as u64, ..self }
    }

    /// What a cell of the legacy layout has released at `now`: the share of
    /// what remains.
    pub open spec fn legacy_withdraw_error(self, amount: u64, now: u64) -> Option<ProgramError> {
        if now <= self.start_time {
            Some(custom(TokenError::StreamNotStarted))
        } else if amount > self.released_at(now) || (self.paused == 1 && amount
            > self.withdraw_limit) {
            Some(ProgramError::InsufficientFunds)
        } else {
            None
        }
    }

    /// The schedule of a legacy cell after a withdrawal of `amount`: what
    /// remains shrinks.
    pub open spec fn after_legacy_withdraw(self, amount: u64) -> Schedule {
        Schedule {
            amount: (self.amount - amount) as u64,
            withdraw_limit: if self.paused == 1 {
                (self.withdraw_limit - amount) as u64
            } else {
                self.withdraw_limit
            },
            ..self
        }
    }

    /// A new schedule that runs at once.
    pub fn new(start_time: u64, end_time: u64, amount: u64) -> (r: Schedule)
        ensures
            r == (Schedule {
                start_time,
                end_time,
                paused: 0,
                withdraw_limit: 0,
                amount,
                withdrawn: 0,
                paused_at: 0,
            }),
            start_time < end_time ==> r.wf(),
    {
        Schedule { start_time, end_time, paused: 0, withdraw_limit: 0, amount, withdrawn: 0, paused_at: 0 }
    }

    /// A new schedule that waits for its approvals.
    pub fn new_pending(start_time: u64, end_time: u64, amount: u64) -> (r: Schedule)
        ensures
            r == (Schedule {
                start_time,
                end_time,
                paused: 1,
                withdraw_limit: 0,
                amount,
                withdrawn: 0,
                paused_at: 0,
            }),
            r.pending(),
            start_time < end_time ==> r.wf(),
    {
        Schedule { start_time, end_time, paused: 1, withdraw_limit: 0, amount, withdrawn: 0, paused_at: 0 }
    }

    /// What has been released at `now`.
    pub fn allowed_amt(&self, now: u64) -> (r: u64)
        ensures
            r == self.released_at(now),
            r <= self.amount,
    {
        release_at(self.start_time, self.end_time, self.amount, now)
    }

    /// Takes `amount` out of what is available at `now`.
    pub fn withdraw(&self, amount: u64, now: u64) -> (r: Result<Schedule, ProgramError>)
        ensures
            match r {
                Ok(s) => self.withdraw_error(amount, now) is None && s == self.after_withdraw(amount)
                    && s.withdrawn == self.withdrawn + amount && s.residual() == self.residual()
                    - amount,
                Err(e) => self.withdraw_error(amount, now) == Some(e),
            },
            self.wf() && r is Ok ==> r->Ok_0.wf(),
    {
        if now <= self.start_time {
            return Err(ProgramError::from(TokenError::StreamNotStarted));
        }
        let total = self.allowed_amt(now);
        if total < self.withdrawn {
            return Err(ProgramError::from(TokenError::Overflow));
        }
        let open_amount = total - self.withdrawn;
        if amount > open_amount {
            return Err(ProgramError::InsufficientFunds);
        }
        let mut next = *self;
        if self.paused == 1 {
            if amount > self.withdraw_limit {
                return Err(ProgramError::InsufficientFunds);
            }
            next.withdraw_limit = self.withdraw_limit - amount;
        }
        next.withdrawn = self.withdrawn + amount;
        Ok(next)
    }

    /// Takes `amount` out of a cell of the legacy layout, which keeps no
    /// count of what was withdrawn: its total is what remains.
    pub fn withdraw_legacy(&self, amount: u64, now: u64) -> (r: Result<Schedule, ProgramError>)
        ensures
            match r {
                Ok(s) => self.legacy_withdraw_error(amount, now) is None && s
                    == self.after_legacy_withdraw(amount) && s.amount == self.amount - amount,
                Err(e) => self.legacy_withdraw_error(amount, now) == Some(e),
            },
    {
        if now <= self.start_time {
            return Err(ProgramError::from(TokenError::StreamNotStarted));
        }
        let total = self.allowed_amt(now);
        if amount > total {
            return Err(ProgramError::InsufficientFunds);
        }
        let mut next = *self;
        if self.paused == 1 {
            if amount > self.withdraw_limit {
                return Err(ProgramError::InsufficientFunds);
            }
            next.withdraw_limit = self.withdraw_limit - amount;
        }
        next.amount = self.amount - amount;
        Ok(next)
    }

    /// Settles the schedule at `now`: what goes to the recipient and what
    /// stays with the sender.
    pub fn cancel(&self, now: u64) -> (r: Result<Settlement, ProgramError>)
        ensures
            match r {
                Ok(s) => self.cancel_error(now) is None && s == self.settlement(now) && s.paid
                    + s.refund == self.residual(),
                Err(e) => self.cancel_error(now) == Some(e),
            },
    {
        if now >= self.end_time {
            return Err(ProgramError::from(TokenError::TimeEnd));
        }
        let total = self.allowed_amt(now);
        if total < self.withdrawn || self.amount < self.withdrawn {
            return Err(ProgramError::from(TokenError::Overflow));
        }
        Ok(Settlement { paid: total - self.withdrawn, refund: self.amount - total })
    }

    /// Pauses the schedule at `now`: what is released and not yet withdrawn
    /// stays claimable, nothing more accrues.
    pub fn pause(&self, now: u64) -> (r: Result<Schedule, ProgramError>)
        ensures
            match r {
                Ok(s) => self.pause_error(now) is None && s == self.after_pause(now),
                Err(e) => self.pause_error(now) == Some(e),
            },
            self.wf() && r is Ok ==> r->Ok_0.wf() && !r->Ok_0.pending(),
    {
        if now >= self.end_time {
            return Err(ProgramError::from(TokenError::TimeEnd));
        }
        if now <= self.start_time {
            return Err(ProgramError::from(TokenError::StreamNotStarted));
        }
        if self.paused == 1 {
            return Err(ProgramError::from(TokenError::AlreadyPaused));
        }
        let total = self.allowed_amt(now);
        if total < self.withdrawn {
            return Err(ProgramError::from(TokenError::Overflow));
        }
        let mut next = *self;
        next.paused = 1;
        next.withdraw_limit = total - self.withdrawn;
        next.paused_at = now;
        Ok(next)
    }

    /// Resumes a paused schedule at `now`.
    pub fn resume(&self, now: u64) -> (r: Result<Schedule, ProgramError>)
        ensures
            match r {
                Ok(s) => self.resume_error(now) is None && s == self.after_resume(now),
                Err(e) => self.resume_error(now) == Some(e),
            },
            self.wf() && r is Ok ==> r->Ok_0.wf(),
    {
        if self.paused != 1 || self.paused_at == 0 {
            return Err(ProgramError::from(TokenError::AlreadyResumed));
        }
        if now < self.paused_at {
            return Err(ProgramError::from(TokenError::Overflow));
        }
        let spent = now - self.paused_at;
        let end_time = match self.end_time.checked_add(spent) {
            Some(t) => t,
            None => {
                return Err(ProgramError::from(TokenError::Overflow));
            },
        };
        let start_time = match self.start_time.checked_add(spent) {
            Some(t) => t,
            None => {
                return Err(ProgramError::from(TokenError::Overflow));
            },
        };
        let mut next = *self;
        next.paused = 0;
        next.paused_at = 0;
        next.start_time = start_time;
        next.end_time = end_time;
        Ok(next)
    }

    /// Tops the schedule up by `delta` and moves its end to `end_time`.
    pub fn fund(&self, end_time: u64, delta: u64) -> (r: Result<Schedule, ProgramError>)
        ensures
            match r {
                Ok(s) => self.fund_error(end_time, delta) is None && s == self.after_fund(
                    end_time,
                    delta,
                ) && s.residual() == self.residual() + delta,
                Err(e) => self.fund_error(end_time, delta) == Some(e),
            },
            self.wf() && r is Ok ==> r->Ok_0.wf(),
    {
        if end_time <= self.start_time {
            return Err(ProgramError::from(TokenError::InvalidInstruction));
        }
        let amount = match self.amount.checked_add(delta) {
            Some(a) => a,
            None => {
                return Err(ProgramError::from(TokenError::Overflow));
            },
        };
        let mut next = *self;
        next.end_time = end_time;
        next.amount = amount;
        Ok(next)
    }
}

} // verus!
