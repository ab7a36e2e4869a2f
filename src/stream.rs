//! A payment stream: its window, curve, pause ledger and withdrawal
//! bookkeeping.
use crate::constants::MAX_PAUSE_RESUME_COUNT;
use crate::curve::AccelerationType;
use crate::errors::StreamVaultError;
use crate::keys::AccountKey;
use crate::strategies::{earned_amount, earned_at, lemma_earned_at_most_total, withdrawable_of};
use vstd::prelude::*;

verus! {

/// One stream from an employer to a freelancer.
#[derive(Clone, Copy, Debug)]
pub struct Stream {
    pub employer: AccountKey,
    pub freelancer: AccountKey,
    pub stream_id: u64,
    pub start_time: i64,
    pub end_time: i64,
    pub total_amount: u64,
    pub withdrawn_amount: u64,
    pub is_paused: bool,
    pub pause_time: Option<i64>,
    pub total_paused_duration: i64,
    pub pause_resume_count: u8,
    pub last_operation_slot: u64,
    pub accumulated_dust: u64,
    pub mint: AccountKey,
    pub vault: AccountKey,
    pub acceleration_type: AccelerationType,
    pub bump: u8,
    pub is_funded: bool,
}

impl Stream {
    /// What every stream satisfies between operations: a non-empty window,
    /// nothing withdrawn beyond the total, a non-negative paused duration, a
    /// pause instant exactly while paused, and the pause/resume cap.
    pub open spec fn well_formed(&self) -> bool {
        &&& self.start_time < self.end_time
        &&& self.withdrawn_amount <= self.total_amount
        &&& 0 <= self.total_paused_duration
        &&& self.is_paused == self.pause_time.is_some()
        &&& self.pause_resume_count <= MAX_PAUSE_RESUME_COUNT
    }

    /// The amount earned at wall-clock `now`.
    pub open spec fn earned(&self, now: i64) -> int {
        earned_at(
            self.acceleration_type,
            self.total_amount,
            self.start_time,
            self.end_time,
            now,
            self.total_paused_duration,
            self.is_paused,
            self.pause_time,
        )
    }

    /// Whether the window, pushed out by the time spent paused, is over.
    pub open spec fn ended(&self, now: i64) -> bool {
        now >= self.end_time + self.total_paused_duration
    }

    /// How long the current pause has lasted, never negative.
    pub open spec fn current_pause_length(&self, now: i64) -> int {
        match self.pause_time {
            Some(p) => if now - p < 0 {
                0
            } else {
                now - p
            },
            None => 0,
        }
    }

    /// Whether a pause has outlasted the stream's own duration.
    pub open spec fn auto_close_due(&self, now: i64) -> bool {
        self.is_paused && self.pause_time.is_some() && self.current_pause_length(now) > self.end_time
            - self.start_time
    }

    pub fn calculate_earned_amount(&self, current_time: i64) -> (r: Result<u64, StreamVaultError>)
        ensures
            r == Ok::<u64, StreamVaultError>(self.earned(current_time) as u64),
    {
        Ok(
            earned_amount(
                self.acceleration_type,
                self.total_amount,
                self.start_time,
                self.end_time,
                current_time,
                self.total_paused_duration,
                self.is_paused,
                self.pause_time,
            ),
        )
    }

    pub fn calculate_withdrawable_amount(&self, current_time: i64) -> (r: Result<u64, StreamVaultError>)
        ensures
            r == withdrawable_of(self.earned(current_time), self.withdrawn_amount),
    {
        let earned = earned_amount(
            self.acceleration_type,
            self.total_amount,
            self.start_time,
            self.end_time,
            current_time,
            self.total_paused_duration,
            self.is_paused,
            self.pause_time,
        );
        match earned.checked_sub(self.withdrawn_amount) {
            Some(w) => Ok(w),
            None => Err(StreamVaultError::MathOverflow),
        }
    }

    pub fn is_ended(&self, current_time: i64) -> (r: bool)
        ensures
            r == self.ended(current_time),
    {
        current_time as i128 >= self.end_time as i128 + self.total_paused_duration as i128
    }

    /// Length of the window as created; an overflow is an error.
    pub fn get_stream_duration(&self) -> (r: Result<i64, StreamVaultError>)
        ensures
            r == if i64::MIN <= self.end_time - self.start_time <= i64::MAX {
                Ok::<i64, StreamVaultError>((self.end_time - self.start_time) as i64)
            } else {
                Err(StreamVaultError::MathOverflow)
            },
    {
        match self.end_time.checked_sub(self.start_time) {
            Some(d) => Ok(d),
            None => Err(StreamVaultError::MathOverflow),
        }
    }

    /// Whether the stream has been paused longer than its own duration.
    pub fn should_auto_close(&self, current_time: i64) -> (r: Result<bool, StreamVaultError>)
        ensures
            r == Ok::<bool, StreamVaultError>(self.auto_close_due(current_time)),
    {
        if !self.is_paused {
            return Ok(false);
        }
        match self.pause_time {
            Some(p) => {
                let raw: i128 = current_time as i128 - p as i128;
                let length: i128 = if raw < 0 {
                    0
                } else {
                    raw
                };
                Ok(length > self.end_time as i128 - self.start_time as i128)
            },
            None => Ok(false),
        }
    }

    pub fn has_remaining_funds(&self) -> (r: bool)
        ensures
            r == (self.withdrawn_amount < self.total_amount),
    {
        self.withdrawn_amount < self.total_amount
    }

    /// Whether everything has been earned by `current_time`.
    pub fn is_final_withdrawal(&self, current_time: i64) -> (r: Result<bool, StreamVaultError>)
        ensures
            r == Ok::<bool, StreamVaultError>(self.earned(current_time) >= self.total_amount),
    {
        proof {
            lemma_earned_at_most_total(
                self.acceleration_type,
                self.total_amount,
                self.start_time,
                self.end_time,
                current_time,
                self.total_paused_duration,
                self.is_paused,
                self.pause_time,
            );
        }
        let earned = self.calculate_earned_amount(current_time)?;
        Ok(earned >= self.total_amount)
    }

    /// Freezes the stream at `current_time`.
    pub fn pause(&mut self, current_time: i64) -> (r: Result<(), StreamVaultError>)
        ensures
            old(self).is_paused ==> r == Err::<(), StreamVaultError>(StreamVaultError::AlreadyPaused)
                && *final(self) == *old(self),
            !old(self).is_paused ==> r is Ok && *final(self) == (Stream {
                is_paused: true,
                pause_time: Some(current_time),
                ..*old(self)
            }),
    {
        if self.is_paused {
            return Err(StreamVaultError::AlreadyPaused);
        }
        self.is_paused = true;
        self.pause_time = Some(current_time);
        Ok(())
    }

    /// Ends the current pause at `current_time`, adding its length (never
    /// negative) to the paused duration; an overflow of that sum is an error
    /// and changes nothing.
    pub fn resume(&mut self, current_time: i64) -> (r: Result<(), StreamVaultError>)
        ensures
            !old(self).is_paused ==> r == Err::<(), StreamVaultError>(StreamVaultError::NotPaused)
                && *final(self) == *old(self),
            old(self).is_paused && old(self).total_paused_duration + old(self).current_pause_length(
                current_time,
            ) > i64::MAX ==> r == Err::<(), StreamVaultError>(StreamVaultError::MathOverflow)
                && *final(self) == *old(self),
            old(self).is_paused && old(self).total_paused_duration + old(self).current_pause_length(
                current_time,
            ) <= i64::MAX ==> r is Ok && *final(self) == (Stream {
                is_paused: false,
                pause_time: None,
                total_paused_duration: (old(self).total_paused_duration + old(
                    self,
                ).current_pause_length(current_time)) as i64,
                ..*old(self)
            }),
    {
        if !self.is_paused {
            return Err(StreamVaultError::NotPaused);
        }
        let length: i128 = match self.pause_time {
            Some(p) => {
                let raw: i128 = current_time as i128 - p as i128;
                if raw < 0 {
                    0
                } else {
                    raw
                }
            },
            None => 0,
        };
        let sum: i128 = self.total_paused_duration as i128 + length;
        if sum > i64::MAX as i128 {
            return Err(StreamVaultError::MathOverflow);
        }
        self.total_paused_duration = sum as i64;
        self.is_paused = false;
        self.pause_time = None;
        Ok(())
    }
}

/// The lengths a stream may be created with.
#[derive(Clone, Copy, Debug, PartialEq, Eq, Structural)]
pub enum StreamDuration {
    OneWeek,
    TwoWeeks,
    ThreeWeeks,
    FourWeeks,
    SixWeeks,
    EightWeeks,
    TenWeeks,
    TwelveWeeks,
}

/// Seconds in a week.
pub const WEEK_IN_SECONDS: i64 = 604800;

impl StreamDuration {
    /// Length in weeks.
    pub open spec fn weeks(self) -> int {
        match self {
            StreamDuration::OneWeek => 1,
            StreamDuration::TwoWeeks => 2,
            StreamDuration::ThreeWeeks => 3,
            StreamDuration::FourWeeks => 4,
            StreamDuration::SixWeeks => 6,
            StreamDuration::EightWeeks => 8,
            StreamDuration::TenWeeks => 10,
            StreamDuration::TwelveWeeks => 12,
        }
    }

    pub fn to_seconds(&self) -> (r: i64)
        ensures
            r == self.weeks() * WEEK_IN_SECONDS,
    {
        match self {
            StreamDuration::OneWeek => WEEK_IN_SECONDS,
            StreamDuration::TwoWeeks => 2 * WEEK_IN_SECONDS,
            StreamDuration::ThreeWeeks => 3 * WEEK_IN_SECONDS,
            StreamDuration::FourWeeks => 4 * WEEK_IN_SECONDS,
            StreamDuration::SixWeeks => 6 * WEEK_IN_SECONDS,
            StreamDuration::EightWeeks => 8 * WEEK_IN_SECONDS,
            StreamDuration::TenWeeks => 10 * WEEK_IN_SECONDS,
            StreamDuration::TwelveWeeks => 12 * WEEK_IN_SECONDS,
        }
    }

    pub fn description(&self) -> (r: &'static str) {
        match self {
            StreamDuration::OneWeek => "1 week",
            StreamDuration::TwoWeeks => "2 weeks",
            StreamDuration::ThreeWeeks => "3 weeks",
            StreamDuration::FourWeeks => "4 weeks (1 month)",
            StreamDuration::SixWeeks => "6 weeks",
            StreamDuration::EightWeeks => "8 weeks (2 months)",
            StreamDuration::TenWeeks => "10 weeks",
            StreamDuration::TwelveWeeks => "12 weeks (3 months)",
        }
    }

    pub fn to_days(&self) -> (r: u32)
        ensures
            r == self.weeks() * 7,
    {
        match self {
            StreamDuration::OneWeek => 7,
            StreamDuration::TwoWeeks => 14,
            StreamDuration::ThreeWeeks => 21,
            StreamDuration::FourWeeks => 28,
            StreamDuration::SixWeeks => 42,
            StreamDuration::EightWeeks => 56,
            StreamDuration::TenWeeks => 70,
            StreamDuration::TwelveWeeks => 84,
        }
    }

    /// The duration that lasts exactly `seconds`, if there is one.
    pub fn from_seconds(seconds: i64) -> (r: Option<StreamDuration>)
        ensures
            r matches Some(d) ==> d.weeks() * WEEK_IN_SECONDS == seconds,
            r is None ==> forall|d: StreamDuration| d.weeks() * WEEK_IN_SECONDS != seconds,
    {
        if seconds == WEEK_IN_SECONDS {
            Some(StreamDuration::OneWeek)
        } else if seconds == 2 * WEEK_IN_SECONDS {
            Some(StreamDuration::TwoWeeks)
        } else if seconds == 3 * WEEK_IN_SECONDS {
            Some(StreamDuration::ThreeWeeks)
        } else if seconds == 4 * WEEK_IN_SECONDS {
            Some(StreamDuration::FourWeeks)
        } else if seconds == 6 * WEEK_IN_SECONDS {
            Some(StreamDuration::SixWeeks)
        } else if seconds == 8 * WEEK_IN_SECONDS {
            Some(StreamDuration::EightWeeks)
        } else if seconds == 10 * WEEK_IN_SECONDS {
            Some(StreamDuration::TenWeeks)
        } else if seconds == 12 * WEEK_IN_SECONDS {
            Some(StreamDuration::TwelveWeeks)
        } else {
            None
        }
    }
}

/// Coarse status of a stream.
#[derive(Clone, Copy, Debug, PartialEq, Eq, Structural)]
pub enum StreamStatus {
    Active,
    Paused,
    Completed,
    Cancelled,
}

} // verus!
