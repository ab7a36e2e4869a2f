//! The stream timeline: how pauses shift the window, and the strategies that
//! turn elapsed time into an earned amount.
use crate::curve::{curve_amount, lemma_curve_amount_bounds, release_by_curve, AccelerationType};
use crate::errors::StreamVaultError;
use vstd::prelude::*;
use vstd::string::StrSliceExecFns;

verus! {

/// The instant the schedule sees: a paused stream is frozen where it was paused.
pub open spec fn effective_now(now: i64, is_paused: bool, pause_time: Option<i64>) -> int {
    if is_paused {
        match pause_time {
            Some(p) => p as int,
            None => now as int,
        }
    } else {
        now as int
    }
}

/// Amount of `total` earned at wall-clock `now` by a stream over
/// `[start, end)` that has been paused for `paused` seconds so far.
///
/// Nothing is earned before the start. Paused time is taken out of the
/// elapsed time, and the deadline is pushed out by the same amount; the
/// denominator stays the window as created. At or after the pushed deadline,
/// or for an empty window, everything is earned.
pub open spec fn earned_at(
    curve: AccelerationType,
    total: u64,
    start: i64,
    end: i64,
    now: i64,
    paused: i64,
    is_paused: bool,
    pause_time: Option<i64>,
) -> int {
    let eff = effective_now(now, is_paused, pause_time);
    let duration = end - start;
    if now < start {
        0
    } else if eff >= end + paused || duration <= 0 {
        total as int
    } else {
        let raw = eff - start - paused;
        curve_amount(curve, total as int, if raw < 0 { 0 } else { raw }, duration)
    }
}

/// What remains to be paid of `earned` once `withdrawn` has gone out; more
/// withdrawn than earned is a broken account.
pub open spec fn withdrawable_of(earned: int, withdrawn: u64) -> Result<u64, StreamVaultError> {
    if withdrawn <= earned {
        Ok((earned - withdrawn) as u64)
    } else {
        Err(StreamVaultError::MathOverflow)
    }
}

/// Average release per second of `total` over `[start, end)`, scaled by
/// `multiplier`.
pub open spec fn release_rate_of(total: u64, start: i64, end: i64, multiplier: nat) -> Result<u64, StreamVaultError> {
    let duration = end - start;
    if duration <= 0 {
        Err(StreamVaultError::InvalidTimeRange)
    } else if (total as int / duration) * multiplier > u64::MAX {
        Err(StreamVaultError::MathOverflow)
    } else {
        Ok(((total as int / duration) * multiplier) as u64)
    }
}

/// The earned amount never exceeds the total.
pub proof fn lemma_earned_at_most_total(
    curve: AccelerationType,
    total: u64,
    start: i64,
    end: i64,
    now: i64,
    paused: i64,
    is_paused: bool,
    pause_time: Option<i64>,
)
    ensures
        0 <= earned_at(curve, total, start, end, now, paused, is_paused, pause_time) <= total,
{
    let eff = effective_now(now, is_paused, pause_time);
    let duration = end - start;
    if now >= start && eff < end + paused && duration > 0 {
        let raw = eff - start - paused;
        lemma_curve_amount_bounds(curve, total as int, if raw < 0 { 0 } else { raw }, duration);
    }
}

/// Computes `earned_at` without overflow for every input.
pub fn earned_amount(
    curve: AccelerationType,
    total: u64,
    start: i64,
    end: i64,
    now: i64,
    paused: i64,
    is_paused: bool,
    pause_time: Option<i64>,
) -> (r: u64)
    ensures
        r == earned_at(curve, total, start, end, now, paused, is_paused, pause_time),
{
    if now < start {
        return 0;
    }
    let eff: i64 = if is_paused {
        match pause_time {
            Some(p) => p,
            None => now,
        }
    } else {
        now
    };
    let eff_end: i128 = end as i128 + paused as i128;
    let duration: i128 = end as i128 - start as i128;
    if eff as i128 >= eff_end || duration <= 0 {
        return total;
    }
    let raw: i128 = eff as i128 - start as i128 - paused as i128;
    let elapsed: i128 = if raw < 0 {
        0
    } else {
        raw
    };
    release_by_curve(curve, total, elapsed as u64, duration as u64)
}

/// Computes `release_rate_of`.
pub fn release_rate(total: u64, start: i64, end: i64, multiplier: u8) -> (r: Result<u64, StreamVaultError>)
    ensures
        r == release_rate_of(total, start, end, multiplier as nat),
{
    let duration: i128 = end as i128 - start as i128;
    if duration <= 0 {
        return Err(StreamVaultError::InvalidTimeRange);
    }
    let avg: u64 = (total as i128 / duration) as u64;
    match avg.checked_mul(multiplier as u64) {
        Some(rate) => Ok(rate),
        None => Err(StreamVaultError::MathOverflow),
    }
}

/// The timeline of one stream at one instant, with what has been withdrawn.
#[derive(Debug, Clone, Copy)]
pub struct StreamingContext {
    pub total_amount: u64,
    pub start_time: i64,
    pub end_time: i64,
    pub current_time: i64,
    pub total_paused_duration: i64,
    pub is_paused: bool,
    pub pause_time: Option<i64>,
    pub withdrawn_amount: u64,
}

impl StreamingContext {
    pub fn new(
        total_amount: u64,
        start_time: i64,
        end_time: i64,
        current_time: i64,
        total_paused_duration: i64,
        is_paused: bool,
        pause_time: Option<i64>,
        withdrawn_amount: u64,
    ) -> (r: StreamingContext)
        ensures
            r.total_amount == total_amount,
            r.start_time == start_time,
            r.end_time == end_time,
            r.current_time == current_time,
            r.total_paused_duration == total_paused_duration,
            r.is_paused == is_paused,
            r.pause_time == pause_time,
            r.withdrawn_amount == withdrawn_amount,
    {
        StreamingContext {
            total_amount,
            start_time,
            end_time,
            current_time,
            total_paused_duration,
            is_paused,
            pause_time,
            withdrawn_amount,
        }
    }

    /// The instant the schedule sees.
    pub fn effective_current_time(&self) -> (r: i64)
        ensures
            r == effective_now(self.current_time, self.is_paused, self.pause_time),
    {
        if self.is_paused {
            match self.pause_time {
                Some(p) => p,
                None => self.current_time,
            }
        } else {
            self.current_time
        }
    }

    /// The deadline pushed out by the time spent paused.
    pub fn effective_end_time(&self) -> (r: i64)
        requires
            i64::MIN <= self.end_time + self.total_paused_duration <= i64::MAX,
        ensures
            r == self.end_time + self.total_paused_duration,
    {
        self.end_time + self.total_paused_duration
    }

    /// The amount earned at this instant along `curve`.
    pub open spec fn earned_along(&self, curve: AccelerationType) -> int {
        earned_at(
            curve,
            self.total_amount,
            self.start_time,
            self.end_time,
            self.current_time,
            self.total_paused_duration,
            self.is_paused,
            self.pause_time,
        )
    }
}

/// A release policy for streams: how much is earned at an instant, and the
/// average release rate.
pub trait StreamingStrategy {
    /// The curve the strategy releases along.
    spec fn curve(&self) -> AccelerationType;

    fn calculate_earned_amount(
        &self,
        total_amount: u64,
        start_time: i64,
        end_time: i64,
        current_time: i64,
        total_paused_duration: i64,
        is_paused: bool,
        pause_time: Option<i64>,
    ) -> (r: Result<u64, StreamVaultError>)
        ensures
            r == Ok::<u64, StreamVaultError>(
                earned_at(
                    self.curve(),
                    total_amount,
                    start_time,
                    end_time,
                    current_time,
                    total_paused_duration,
                    is_paused,
                    pause_time,
                ) as u64,
            ),
    ;

    fn calculate_release_rate(&self, total_amount: u64, start_time: i64, end_time: i64) -> (r: Result<
        u64,
        StreamVaultError,
    >)
        ensures
            r == release_rate_of(total_amount, start_time, end_time, self.curve().exponent()),
    ;

    fn description(&self) -> &'static str;
}

/// Releases in proportion to elapsed time.
pub struct LinearStreamingStrategy;

impl LinearStreamingStrategy {
    pub fn new() -> (r: LinearStreamingStrategy) {
        LinearStreamingStrategy
    }

    /// What can be withdrawn at the context's instant.
    pub fn calculate_withdrawable_amount(&self, ctx: &StreamingContext) -> (r: Result<u64, StreamVaultError>)
        ensures
            r == withdrawable_of(ctx.earned_along(AccelerationType::Linear), ctx.withdrawn_amount),
    {
        let earned = earned_amount(
            AccelerationType::Linear,
            ctx.total_amount,
            ctx.start_time,
            ctx.end_time,
            ctx.current_time,
            ctx.total_paused_duration,
            ctx.is_paused,
            ctx.pause_time,
        );
        match earned.checked_sub(ctx.withdrawn_amount) {
            Some(w) => Ok(w),
            None => Err(StreamVaultError::MathOverflow),
        }
    }
}

impl StreamingStrategy for LinearStreamingStrategy {
    open spec fn curve(&self) -> AccelerationType {
        AccelerationType::Linear
    }

    fn calculate_earned_amount(
        &self,
        total_amount: u64,
        start_time: i64,
        end_time: i64,
        current_time: i64,
        total_paused_duration: i64,
        is_paused: bool,
        pause_time: Option<i64>,
    ) -> (r: Result<u64, StreamVaultError>) {
        Ok(
            earned_amount(
                AccelerationType::Linear,
                total_amount,
                start_time,
                end_time,
                current_time,
                total_paused_duration,
                is_paused,
                pause_time,
            ),
        )
    }

    fn calculate_release_rate(&self, total_amount: u64, start_time: i64, end_time: i64) -> (r: Result<
        u64,
        StreamVaultError,
    >) {
        release_rate(total_amount, start_time, end_time, 1)
    }

    fn description(&self) -> &'static str {
        "Linear streaming: Funds are released proportionally over time"
    }
}

/// Releases along an acceleration curve: slow at first, faster towards the end.
pub struct ExponentialStreamingStrategy {
    acceleration_type: AccelerationType,
}

impl ExponentialStreamingStrategy {
    /// The curve this strategy follows.
    pub closed spec fn acceleration(&self) -> AccelerationType {
        self.acceleration_type
    }

    pub fn new(acceleration_type: AccelerationType) -> (r: ExponentialStreamingStrategy)
        ensures
            r.acceleration() == acceleration_type,
    {
        ExponentialStreamingStrategy { acceleration_type }
    }

    /// The quadratic curve.
    pub fn default() -> (r: ExponentialStreamingStrategy)
        ensures
            r.acceleration() == AccelerationType::Quadratic,
    {
        Self::new(AccelerationType::Quadratic)
    }

    pub fn acceleration_type(&self) -> (r: AccelerationType)
        ensures
            r == self.acceleration(),
    {
        self.acceleration_type
    }

    /// What can be withdrawn at the context's instant.
    pub fn calculate_withdrawable_amount(&self, ctx: &StreamingContext) -> (r: Result<u64, StreamVaultError>)
        ensures
            r == withdrawable_of(ctx.earned_along(self.acceleration()), ctx.withdrawn_amount),
    {
        let earned = earned_amount(
            self.acceleration_type,
            ctx.total_amount,
            ctx.start_time,
            ctx.end_time,
            ctx.current_time,
            ctx.total_paused_duration,
            ctx.is_paused,
            ctx.pause_time,
        );
        match earned.checked_sub(ctx.withdrawn_amount) {
            Some(w) => Ok(w),
            None => Err(StreamVaultError::MathOverflow),
        }
    }
}

impl StreamingStrategy for ExponentialStreamingStrategy {
    open spec fn curve(&self) -> AccelerationType {
        self.acceleration()
    }

    fn calculate_earned_amount(
        &self,
        total_amount: u64,
        start_time: i64,
        end_time: i64,
        current_time: i64,
        total_paused_duration: i64,
        is_paused: bool,
        pause_time: Option<i64>,
    ) -> (r: Result<u64, StreamVaultError>) {
        Ok(
            earned_amount(
                self.acceleration_type,
                total_amount,
                start_time,
                end_time,
                current_time,
                total_paused_duration,
                is_paused,
                pause_time,
            ),
        )
    }

    fn calculate_release_rate(&self, total_amount: u64, start_time: i64, end_time: i64) -> (r: Result<
        u64,
        StreamVaultError,
    >) {
        release_rate(total_amount, start_time, end_time, self.acceleration_type.to_factor())
    }

    fn description(&self) -> &'static str {
        "Exponential streaming: Funds are released with accelerating rate over time"
    }
}

/// Builds one strategy of each curve.
pub fn create_strategy_examples() {
    let _linear = ExponentialStreamingStrategy::new(AccelerationType::Linear);
    let _quadratic = ExponentialStreamingStrategy::new(AccelerationType::Quadratic);
    let _cubic = ExponentialStreamingStrategy::new(AccelerationType::Cubic);
}

/// Whether two strings hold the same characters.
fn same_text(a: &str, b: &str) -> (r: bool)
    ensures
        r == (a@ == b@),
{
    let n = a.unicode_len();
    if n != b.unicode_len() {
        return false;
    }
    let mut i: usize = 0;
    while i < n
        invariant
            n == a@.len(),
            n == b@.len(),
            i <= n,
            forall|j: int| 0 <= j < i ==> a@[j] == b@[j],
        decreases n - i,
    {
        if a.get_char(i) != b.get_char(i) {
            return false;
        }
        i = i + 1;
    }
    proof {
        assert(a@ =~= b@);
    }
    true
}

/// The curve suited to a kind of project.
pub open spec fn curve_for_project(project_type: Seq<char>) -> AccelerationType {
    if project_type == "standard"@ {
        AccelerationType::Linear
    } else if project_type == "milestone-based"@ {
        AccelerationType::Quadratic
    } else if project_type == "completion-critical"@ {
        AccelerationType::Cubic
    } else {
        AccelerationType::Quadratic
    }
}

/// Picks the strategy for a kind of project; unknown kinds get the default.
pub fn select_strategy_for_project(project_type: &str) -> (r: ExponentialStreamingStrategy)
    ensures
        r.acceleration() == curve_for_project(project_type@),
{
    if same_text(project_type, "standard") {
        ExponentialStreamingStrategy::new(AccelerationType::Linear)
    } else if same_text(project_type, "milestone-based") {
        ExponentialStreamingStrategy::new(AccelerationType::Quadratic)
    } else if same_text(project_type, "completion-critical") {
        ExponentialStreamingStrategy::new(AccelerationType::Cubic)
    } else {
        ExponentialStreamingStrategy::default()
    }
}

} // verus!
