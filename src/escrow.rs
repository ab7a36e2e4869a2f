//! The escrow vault: release schedules, who may withdraw, and how much is
//! available at an instant.
use crate::curve::{curve_amount, lemma_curve_amount_bounds, release_by_curve, AccelerationType};
use crate::errors::VaultError;
use crate::keys::AccountKey;
use vstd::prelude::*;

verus! {

/// A chunk of the total released when its approver confirms it.
#[derive(Clone, Copy, Debug)]
pub struct MilestoneCondition {
    pub milestone_id: u32,
    pub amount: u64,
    pub required_approval: AccountKey,
    pub is_completed: bool,
}

/// The time-based part of a hybrid schedule.
#[derive(Clone, Copy, Debug)]
pub struct LinearConfig {
    pub start_time: i64,
    pub end_time: i64,
    pub acceleration_type: AccelerationType,
}

/// How an escrow releases its total.
#[derive(Debug)]
pub enum ReleaseSchedule {
    Immediate,
    Linear { start: i64, end: i64 },
    Milestone { conditions: Vec<MilestoneCondition> },
    Hybrid {
        linear_portion: u64,
        milestone_portion: u64,
        linear_config: LinearConfig,
        milestone_config: Vec<MilestoneCondition>,
    },
    Custom { data: Vec<u8> },
}

/// A release schedule with its lists as sequences.
pub enum ScheduleModel {
    Immediate,
    Linear { start: i64, end: i64 },
    Milestone { conditions: Seq<MilestoneCondition> },
    Hybrid {
        linear_portion: u64,
        milestone_portion: u64,
        linear_config: LinearConfig,
        milestone_config: Seq<MilestoneCondition>,
    },
    Custom { data: Seq<u8> },
}

impl View for ReleaseSchedule {
    type V = ScheduleModel;

    open spec fn view(&self) -> ScheduleModel {
        match self {
            ReleaseSchedule::Immediate => ScheduleModel::Immediate,
            ReleaseSchedule::Linear { start, end } => ScheduleModel::Linear { start: *start, end: *end },
            ReleaseSchedule::Milestone { conditions } => ScheduleModel::Milestone {
                conditions: conditions@,
            },
            ReleaseSchedule::Hybrid {
                linear_portion,
                milestone_portion,
                linear_config,
                milestone_config,
            } => ScheduleModel::Hybrid {
                linear_portion: *linear_portion,
                milestone_portion: *milestone_portion,
                linear_config: *linear_config,
                milestone_config: milestone_config@,
            },
            ReleaseSchedule::Custom { data } => ScheduleModel::Custom { data: data@ },
        }
    }
}

/// Sum of the amounts of all conditions.
pub open spec fn milestone_total(conds: Seq<MilestoneCondition>) -> int
    decreases conds.len(),
{
    if conds.len() == 0 {
        0
    } else {
        milestone_total(conds.drop_last()) + conds.last().amount
    }
}

/// Sum of the amounts of the completed conditions.
pub open spec fn completed_total(conds: Seq<MilestoneCondition>) -> int
    decreases conds.len(),
{
    if conds.len() == 0 {
        0
    } else {
        completed_total(conds.drop_last()) + if conds.last().is_completed {
            conds.last().amount as int
        } else {
            0
        }
    }
}

/// The completed part never exceeds the whole, and neither is negative.
pub proof fn lemma_completed_within_total(conds: Seq<MilestoneCondition>)
    ensures
        0 <= completed_total(conds) <= milestone_total(conds),
    decreases conds.len(),
{
    if conds.len() > 0 {
        lemma_completed_within_total(conds.drop_last());
    }
}

/// Sums of prefixes grow with the prefix.
proof fn lemma_prefix_sums_grow(conds: Seq<MilestoneCondition>, i: int, j: int)
    requires
        0 <= i <= j <= conds.len(),
    ensures
        completed_total(conds.subrange(0, i)) <= completed_total(conds.subrange(0, j)),
        milestone_total(conds.subrange(0, i)) <= milestone_total(conds.subrange(0, j)),
    decreases j - i,
{
    if i < j {
        lemma_prefix_sums_grow(conds, i, j - 1);
        assert(conds.subrange(0, j).drop_last() =~= conds.subrange(0, j - 1));
    }
}

/// Adds up the completed conditions; an overflow of the sum is an error.
pub fn sum_completed(conds: &Vec<MilestoneCondition>) -> (r: Result<u64, VaultError>)
    ensures
        r == if completed_total(conds@) <= u64::MAX {
            Ok::<u64, VaultError>(completed_total(conds@) as u64)
        } else {
            Err(VaultError::ArithmeticOverflow)
        },
{
    let mut total: u64 = 0;
    let mut i: usize = 0;
    while i < conds.len()
        invariant
            i <= conds@.len(),
            total == completed_total(conds@.subrange(0, i as int)),
        decreases conds@.len() - i,
    {
        let c = conds[i];
        proof {
            assert(conds@.subrange(0, i + 1).drop_last() =~= conds@.subrange(0, i as int));
            lemma_prefix_sums_grow(conds@, i + 1, conds@.len() as int);
            assert(conds@.subrange(0, conds@.len() as int) =~= conds@);
        }
        if c.is_completed {
            match total.checked_add(c.amount) {
                Some(t) => {
                    total = t;
                },
                None => {
                    return Err(VaultError::ArithmeticOverflow);
                },
            }
        }
        i = i + 1;
    }
    proof {
        assert(conds@.subrange(0, conds@.len() as int) =~= conds@);
    }
    Ok(total)
}

/// Adds up all conditions; an overflow of the sum is an error.
pub fn sum_milestones(conds: &Vec<MilestoneCondition>) -> (r: Result<u64, VaultError>)
    ensures
        r == if milestone_total(conds@) <= u64::MAX {
            Ok::<u64, VaultError>(milestone_total(conds@) as u64)
        } else {
            Err(VaultError::ArithmeticOverflow)
        },
{
    let mut total: u64 = 0;
    let mut i: usize = 0;
    while i < conds.len()
        invariant
            i <= conds@.len(),
            total == milestone_total(conds@.subrange(0, i as int)),
        decreases conds@.len() - i,
    {
        let c = conds[i];
        proof {
            assert(conds@.subrange(0, i + 1).drop_last() =~= conds@.subrange(0, i as int));
            lemma_prefix_sums_grow(conds@, i + 1, conds@.len() as int);
            assert(conds@.subrange(0, conds@.len() as int) =~= conds@);
        }
        match total.checked_add(c.amount) {
            Some(t) => {
                total = t;
            },
            None => {
                return Err(VaultError::ArithmeticOverflow);
            },
        }
        i = i + 1;
    }
    proof {
        assert(conds@.subrange(0, conds@.len() as int) =~= conds@);
    }
    Ok(total)
}

/// Part of `amount` released along `curve` over `[start, end)` at `now`:
/// nothing before the start, everything from the end on.
pub open spec fn window_release(curve: AccelerationType, amount: u64, start: i64, end: i64, now: i64) -> int {
    if now < start {
        0
    } else if now >= end {
        amount as int
    } else {
        curve_amount(curve, amount as int, now - start, end - start)
    }
}

fn release_in_window(curve: AccelerationType, amount: u64, start: i64, end: i64, now: i64) -> (r: u64)
    ensures
        r == window_release(curve, amount, start, end, now),
{
    if now < start {
        0
    } else if now >= end {
        amount
    } else {
        let elapsed = (now as i128 - start as i128) as u64;
        let duration = (end as i128 - start as i128) as u64;
        release_by_curve(curve, amount, elapsed, duration)
    }
}

/// What a schedule has released of `total` at `now`, before anything is
/// subtracted; a schedule that cannot be evaluated, or a sum that overflows,
/// is an error.
pub open spec fn schedule_released(s: ScheduleModel, total: u64, now: i64) -> Result<u64, VaultError> {
    match s {
        ScheduleModel::Immediate => Ok(total),
        ScheduleModel::Linear { start, end } => Ok(
            window_release(AccelerationType::Linear, total, start, end, now) as u64,
        ),
        ScheduleModel::Milestone { conditions } => if completed_total(conditions) <= u64::MAX {
            Ok(completed_total(conditions) as u64)
        } else {
            Err(VaultError::ArithmeticOverflow)
        },
        ScheduleModel::Hybrid { linear_portion, linear_config, milestone_config, .. } => {
            let lin = window_release(
                linear_config.acceleration_type,
                linear_portion,
                linear_config.start_time,
                linear_config.end_time,
                now,
            );
            let ms = completed_total(milestone_config);
            if ms > u64::MAX || lin + ms > u64::MAX {
                Err(VaultError::ArithmeticOverflow)
            } else {
                Ok((lin + ms) as u64)
            }
        },
        ScheduleModel::Custom { .. } => Err(VaultError::UnsupportedSchedule),
    }
}

/// Whether an escrow is in a state where funds can flow out.
pub open spec fn is_live(status: EscrowStatus) -> bool {
    status == EscrowStatus::Active || status == EscrowStatus::Funded
}

/// Who may withdraw from an escrow.
#[derive(Clone, Copy, Debug)]
pub enum ReleaseAuthority {
    Beneficiary,
    Depositor,
    Either,
    Both,
    Program(AccountKey),
    Arbiter,
}

/// Lifecycle of an escrow.
#[derive(Clone, Copy, Debug, PartialEq, Eq, Structural)]
pub enum EscrowStatus {
    Initialized,
    Funded,
    Active,
    Paused,
    Completed,
    Cancelled,
    Disputed,
}

/// An escrow holding `total_amount` for a beneficiary.
#[derive(Debug)]
pub struct EscrowVault {
    pub vault_id: u64,
    pub owner_program: AccountKey,
    pub owner_account: AccountKey,
    pub depositor: AccountKey,
    pub beneficiary: AccountKey,
    pub arbiter: Option<AccountKey>,
    pub token_mint: AccountKey,
    pub vault_token_account: AccountKey,
    pub total_amount: u64,
    pub released_amount: u64,
    pub refunded_amount: u64,
    pub locked_amount: u64,
    pub release_schedule: ReleaseSchedule,
    pub release_authority: ReleaseAuthority,
    pub status: EscrowStatus,
    pub created_at: i64,
    pub updated_at: i64,
    pub expires_at: Option<i64>,
    pub bump: u8,
}

impl EscrowVault {
    /// The account invariant: nothing released beyond the total.
    pub open spec fn well_formed(&self) -> bool {
        self.released_amount <= self.total_amount
    }

    /// Whether `signer` may withdraw under the release authority.
    pub open spec fn may_withdraw(&self, signer: Seq<u8>) -> bool {
        match self.release_authority {
            ReleaseAuthority::Beneficiary => signer == self.beneficiary@,
            ReleaseAuthority::Depositor => signer == self.depositor@,
            ReleaseAuthority::Either => signer == self.beneficiary@ || signer == self.depositor@,
            ReleaseAuthority::Both => false,
            ReleaseAuthority::Program(p) => signer == p@,
            ReleaseAuthority::Arbiter => match self.arbiter {
                Some(a) => signer == a@,
                None => false,
            },
        }
    }

    /// What can be withdrawn at `now`: the schedule's release less what has
    /// been released, capped by the unlocked part of the total less what has
    /// been released; refused outside the live states and after expiry. A
    /// schedule that now releases less than was paid out, or a lock or payout
    /// beyond the total, is a broken account and an error, never zero.
    pub open spec fn available(&self, now: i64) -> Result<u64, VaultError> {
        if !is_live(self.status) {
            Err(VaultError::InvalidStatus)
        } else if self.expires_at matches Some(e) && now > e {
            Err(VaultError::VaultExpired)
        } else {
            match schedule_released(self.release_schedule@, self.total_amount, now) {
                Err(e) => Err(e),
                Ok(released) => if released < self.released_amount || self.total_amount
                    < self.locked_amount || self.total_amount - self.locked_amount
                    < self.released_amount {
                    Err(VaultError::ArithmeticOverflow)
                } else {
                    let withdrawable = released - self.released_amount;
                    let cap = self.total_amount - self.locked_amount - self.released_amount;
                    Ok((if withdrawable <= cap { withdrawable } else { cap }) as u64)
                },
            }
        }
    }

    pub fn validate_owner_program(&self, program_id: &AccountKey) -> (r: Result<(), VaultError>)
        ensures
            r == if self.owner_program@ == program_id@ {
                Ok::<(), VaultError>(())
            } else {
                Err(VaultError::UnauthorizedProgram)
            },
    {
        if self.owner_program.same_as(program_id) {
            Ok(())
        } else {
            Err(VaultError::UnauthorizedProgram)
        }
    }

    pub fn validate_status(&self, expected: EscrowStatus) -> (r: Result<(), VaultError>)
        ensures
            r == if self.status == expected {
                Ok::<(), VaultError>(())
            } else {
                Err(VaultError::InvalidStatus)
            },
    {
        if self.status == expected {
            Ok(())
        } else {
            Err(VaultError::InvalidStatus)
        }
    }

    pub fn can_withdraw(&self, signer: &AccountKey) -> (r: Result<bool, VaultError>)
        ensures
            r == Ok::<bool, VaultError>(self.may_withdraw(signer@)),
    {
        match &self.release_authority {
            ReleaseAuthority::Beneficiary => Ok(signer.same_as(&self.beneficiary)),
            ReleaseAuthority::Depositor => Ok(signer.same_as(&self.depositor)),
            ReleaseAuthority::Either => Ok(
                signer.same_as(&self.beneficiary) || signer.same_as(&self.depositor),
            ),
            ReleaseAuthority::Both => Ok(false),
            ReleaseAuthority::Program(authorized) => Ok(signer.same_as(authorized)),
            ReleaseAuthority::Arbiter => match &self.arbiter {
                Some(arbiter) => Ok(signer.same_as(arbiter)),
                None => Ok(false),
            },
        }
    }

    pub fn calculate_available(&self, current_time: i64) -> (r: Result<u64, VaultError>)
        ensures
            r == self.available(current_time),
    {
        if !(self.status == EscrowStatus::Active || self.status == EscrowStatus::Funded) {
            return Err(VaultError::InvalidStatus);
        }
        if let Some(expires_at) = self.expires_at {
            if current_time > expires_at {
                return Err(VaultError::VaultExpired);
            }
        }
        let released: u64 = match &self.release_schedule {
            ReleaseSchedule::Immediate => self.total_amount,
            ReleaseSchedule::Linear { start, end } => release_in_window(
                AccelerationType::Linear,
                self.total_amount,
                *start,
                *end,
                current_time,
            ),
            ReleaseSchedule::Milestone { conditions } => match sum_completed(conditions) {
                Ok(sum) => sum,
                Err(e) => {
                    return Err(e);
                },
            },
            ReleaseSchedule::Hybrid { linear_portion, linear_config, milestone_config, .. } => {
                let lin = release_in_window(
                    linear_config.acceleration_type,
                    *linear_portion,
                    linear_config.start_time,
                    linear_config.end_time,
                    current_time,
                );
                proof {
                    lemma_completed_within_total(milestone_config@);
                }
                let ms = match sum_completed(milestone_config) {
                    Ok(sum) => sum,
                    Err(e) => {
                        return Err(e);
                    },
                };
                match lin.checked_add(ms) {
                    Some(sum) => sum,
                    None => {
                        return Err(VaultError::ArithmeticOverflow);
                    },
                }
            },
            ReleaseSchedule::Custom { .. } => {
                return Err(VaultError::UnsupportedSchedule);
            },
        };
        let withdrawable = match released.checked_sub(self.released_amount) {
            Some(w) => w,
            None => {
                return Err(VaultError::ArithmeticOverflow);
            },
        };
        let effective_total = match self.total_amount.checked_sub(self.locked_amount) {
            Some(t) => t,
            None => {
                return Err(VaultError::ArithmeticOverflow);
            },
        };
        let cap = match effective_total.checked_sub(self.released_amount) {
            Some(c) => c,
            None => {
                return Err(VaultError::ArithmeticOverflow);
            },
        };
        Ok(
            if withdrawable <= cap {
                withdrawable
            } else {
                cap
            },
        )
    }
}

/// Program-wide escrow settings.
#[derive(Clone, Copy, Debug)]
pub struct EscrowConfig {
    pub authority: AccountKey,
    pub fee_basis_points: u16,
    pub fee_recipient: AccountKey,
    pub min_escrow_amount: u64,
    pub max_escrow_duration: i64,
    pub paused: bool,
    pub version: u32,
    pub bump: u8,
}

impl EscrowConfig {
    pub fn is_compatible(&self, required_version: u32) -> (r: Result<(), VaultError>)
        ensures
            r == if self.version >= required_version {
                Ok::<(), VaultError>(())
            } else {
                Err(VaultError::IncompatibleVersion)
            },
    {
        if self.version >= required_version {
            Ok(())
        } else {
            Err(VaultError::IncompatibleVersion)
        }
    }
}

} // verus!
