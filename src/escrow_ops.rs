//! The escrow operations as decisions on plain values: each checks its
//! preconditions in order and either fails with no change or says what to
//! move and how the record changes.
use crate::errors::VaultError;
use crate::escrow::{
    is_live,
    lemma_completed_within_total,
    milestone_total,
    sum_milestones,
    EscrowConfig,
    EscrowStatus,
    EscrowVault,
    MilestoneCondition,
    ReleaseAuthority,
    ReleaseSchedule,
    ScheduleModel,
};
use crate::keys::AccountKey;
use vstd::prelude::*;

verus! {

/// Fee rates are in hundredths of a percent.
pub const BASIS_POINTS: u64 = 10000;

/// Version of the configuration layout written by `initialize_config`.
pub const CONFIG_VERSION: u32 = 1;

/// Whether a time window is non-empty and no longer than the maximum.
pub open spec fn window_ok(start: i64, end: i64, max_duration: i64) -> bool {
    start < end && end - start <= max_duration
}

/// The check every schedule passes at creation and at every replacement:
/// windows non-empty and within the maximum, milestones summing to their
/// share, and the shares summing to the total.
pub open spec fn schedule_check(s: ScheduleModel, total: u64, max_duration: i64) -> Result<(), VaultError> {
    match s {
        ScheduleModel::Linear { start, end } => if window_ok(start, end, max_duration) {
            Ok(())
        } else {
            Err(VaultError::InvalidTimeRange)
        },
        ScheduleModel::Milestone { conditions } => if milestone_total(conditions) > u64::MAX {
            Err(VaultError::ArithmeticOverflow)
        } else if milestone_total(conditions) != total {
            Err(VaultError::InvalidMilestoneConfig)
        } else {
            Ok(())
        },
        ScheduleModel::Hybrid {
            linear_portion,
            milestone_portion,
            linear_config,
            milestone_config,
        } => if !window_ok(linear_config.start_time, linear_config.end_time, max_duration) {
            Err(VaultError::InvalidTimeRange)
        } else if milestone_total(milestone_config) > u64::MAX || linear_portion + milestone_portion
            > u64::MAX {
            Err(VaultError::ArithmeticOverflow)
        } else if linear_portion + milestone_portion != total || milestone_total(milestone_config)
            != milestone_portion {
            Err(VaultError::InvalidMilestoneConfig)
        } else {
            Ok(())
        },
        _ => Ok(()),
    }
}

fn window_within(start: i64, end: i64, max_duration: i64) -> (r: bool)
    ensures
        r == window_ok(start, end, max_duration),
{
    start < end && (end as i128 - start as i128) <= max_duration as i128
}

/// Checks a schedule against the total it must release.
pub fn validate_schedule(schedule: &ReleaseSchedule, total_amount: u64, max_duration: i64) -> (r: Result<
    (),
    VaultError,
>)
    ensures
        r == schedule_check(schedule@, total_amount, max_duration),
{
    match schedule {
        ReleaseSchedule::Linear { start, end } => {
            if window_within(*start, *end, max_duration) {
                Ok(())
            } else {
                Err(VaultError::InvalidTimeRange)
            }
        },
        ReleaseSchedule::Milestone { conditions } => {
            proof {
                lemma_completed_within_total(conditions@);
            }
            let sum = match sum_milestones(conditions) {
                Ok(s) => s,
                Err(e) => {
                    return Err(e);
                },
            };
            if sum != total_amount {
                Err(VaultError::InvalidMilestoneConfig)
            } else {
                Ok(())
            }
        },
        ReleaseSchedule::Hybrid { linear_portion, milestone_portion, linear_config, milestone_config } => {
            if !window_within(linear_config.start_time, linear_config.end_time, max_duration) {
                return Err(VaultError::InvalidTimeRange);
            }
            proof {
                lemma_completed_within_total(milestone_config@);
            }
            let sum = match sum_milestones(milestone_config) {
                Ok(s) => s,
                Err(e) => {
                    return Err(e);
                },
            };
            let combined = match linear_portion.checked_add(*milestone_portion) {
                Some(c) => c,
                None => {
                    return Err(VaultError::ArithmeticOverflow);
                },
            };
            if combined != total_amount || sum != *milestone_portion {
                Err(VaultError::InvalidMilestoneConfig)
            } else {
                Ok(())
            }
        },
        _ => Ok(()),
    }
}

/// Creates the program-wide settings; the fee is at most the whole amount
/// and the longest duration is positive.
pub fn initialize_config(
    authority: AccountKey,
    fee_recipient: AccountKey,
    fee_basis_points: u16,
    min_escrow_amount: u64,
    max_escrow_duration: i64,
    bump: u8,
) -> (r: Result<EscrowConfig, VaultError>)
    ensures
        fee_basis_points > BASIS_POINTS ==> r == Err::<EscrowConfig, VaultError>(
            VaultError::InvalidAmount,
        ),
        fee_basis_points <= BASIS_POINTS && max_escrow_duration <= 0 ==> r == Err::<
            EscrowConfig,
            VaultError,
        >(VaultError::InvalidTimeRange),
        fee_basis_points <= BASIS_POINTS && max_escrow_duration > 0 ==> r == Ok::<
            EscrowConfig,
            VaultError,
        >(
            EscrowConfig {
                authority,
                fee_basis_points,
                fee_recipient,
                min_escrow_amount,
                max_escrow_duration,
                paused: false,
                version: CONFIG_VERSION,
                bump,
            },
        ),
{
    if fee_basis_points as u64 > BASIS_POINTS {
        return Err(VaultError::InvalidAmount);
    }
    if max_escrow_duration <= 0 {
        return Err(VaultError::InvalidTimeRange);
    }
    Ok(
        EscrowConfig {
            authority,
            fee_basis_points,
            fee_recipient,
            min_escrow_amount,
            max_escrow_duration,
            paused: false,
            version: CONFIG_VERSION,
            bump,
        },
    )
}

/// The parties and accounts of a new escrow.
#[derive(Clone, Copy, Debug)]
pub struct EscrowParties {
    pub owner_program: AccountKey,
    pub owner_account: AccountKey,
    pub depositor: AccountKey,
    pub beneficiary: AccountKey,
    pub arbiter: Option<AccountKey>,
    pub token_mint: AccountKey,
    pub vault_token_account: AccountKey,
}

/// Why a new escrow is refused, in the order the checks are made.
pub open spec fn create_escrow_error(
    config: EscrowConfig,
    total_amount: u64,
    schedule: ScheduleModel,
    expires_at: Option<i64>,
    now: i64,
) -> Option<VaultError> {
    if config.paused {
        Some(VaultError::ProgramPaused)
    } else if total_amount == 0 || total_amount < config.min_escrow_amount {
        Some(VaultError::InvalidAmount)
    } else if expires_at matches Some(exp) && exp <= now {
        Some(VaultError::InvalidTimeRange)
    } else {
        match schedule_check(schedule, total_amount, config.max_escrow_duration) {
            Err(e) => Some(e),
            Ok(_) => None,
        }
    }
}

/// Opens an escrow for `total_amount`, empty and `Initialized`.
pub fn create_escrow(
    config: &EscrowConfig,
    vault_id: u64,
    parties: EscrowParties,
    total_amount: u64,
    release_schedule: ReleaseSchedule,
    release_authority: ReleaseAuthority,
    expires_at: Option<i64>,
    current_time: i64,
    bump: u8,
) -> (r: Result<EscrowVault, VaultError>)
    ensures
        match r {
            Err(e) => create_escrow_error(*config, total_amount, release_schedule@, expires_at, current_time)
                == Some(e),
            Ok(v) => {
                &&& create_escrow_error(
                    *config,
                    total_amount,
                    release_schedule@,
                    expires_at,
                    current_time,
                ) is None
                &&& v.vault_id == vault_id
                &&& v.owner_program == parties.owner_program
                &&& v.owner_account == parties.owner_account
                &&& v.depositor == parties.depositor
                &&& v.beneficiary == parties.beneficiary
                &&& v.arbiter == parties.arbiter
                &&& v.token_mint == parties.token_mint
                &&& v.vault_token_account == parties.vault_token_account
                &&& v.total_amount == total_amount
                &&& v.released_amount == 0
                &&& v.refunded_amount == 0
                &&& v.locked_amount == 0
                &&& v.release_schedule@ == release_schedule@
                &&& v.release_authority == release_authority
                &&& v.status == EscrowStatus::Initialized
                &&& v.created_at == current_time
                &&& v.updated_at == current_time
                &&& v.expires_at == expires_at
                &&& v.bump == bump
            },
        },
{
    if config.paused {
        return Err(VaultError::ProgramPaused);
    }
    if total_amount == 0 || total_amount < config.min_escrow_amount {
        return Err(VaultError::InvalidAmount);
    }
    if let Some(exp) = expires_at {
        if exp <= current_time {
            return Err(VaultError::InvalidTimeRange);
        }
    }
    match validate_schedule(&release_schedule, total_amount, config.max_escrow_duration) {
        Err(e) => {
            return Err(e);
        },
        Ok(_) => {},
    }
    Ok(
        EscrowVault {
            vault_id,
            owner_program: parties.owner_program,
            owner_account: parties.owner_account,
            depositor: parties.depositor,
            beneficiary: parties.beneficiary,
            arbiter: parties.arbiter,
            token_mint: parties.token_mint,
            vault_token_account: parties.vault_token_account,
            total_amount,
            released_amount: 0,
            refunded_amount: 0,
            locked_amount: 0,
            release_schedule,
            release_authority,
            status: EscrowStatus::Initialized,
            created_at: current_time,
            updated_at: current_time,
            expires_at,
            bump,
        },
    )
}

/// What a deposit moves: the amount into the vault and the fee kept back.
#[derive(Clone, Copy, Debug, PartialEq, Eq, Structural)]
pub struct DepositPlan {
    pub deposit_amount: u64,
    pub fee_amount: u64,
}

/// The fee on `amount` at `fee_basis_points`, rounded down.
pub open spec fn fee_of(amount: u64, fee_basis_points: u16) -> int {
    amount * fee_basis_points / (BASIS_POINTS as int)
}

/// What a deposit of `amount` into a vault holding `vault_balance` does, or
/// why it is refused.
pub open spec fn deposit_outcome(
    status: EscrowStatus,
    total_amount: u64,
    config: EscrowConfig,
    amount: u64,
    vault_balance: u64,
) -> Result<DepositPlan, VaultError> {
    if config.paused {
        Err(VaultError::ProgramPaused)
    } else if !(status == EscrowStatus::Initialized || (status == EscrowStatus::Funded && amount
        > 0)) {
        Err(VaultError::InvalidStatus)
    } else if amount == 0 {
        Err(VaultError::InvalidAmount)
    } else if vault_balance + amount > u64::MAX {
        Err(VaultError::ArithmeticOverflow)
    } else if vault_balance + amount > total_amount {
        Err(VaultError::InvalidAmount)
    } else if fee_of(amount, config.fee_basis_points) > amount {
        Err(VaultError::ArithmeticOverflow)
    } else {
        Ok(
            DepositPlan {
                deposit_amount: (amount - fee_of(amount, config.fee_basis_points)) as u64,
                fee_amount: fee_of(amount, config.fee_basis_points) as u64,
            },
        )
    }
}

/// Decides a deposit; nothing changes until the transfer has happened and
/// `record_deposit` is called.
pub fn deposit_funds(escrow: &EscrowVault, config: &EscrowConfig, amount: u64, vault_balance: u64) -> (r:
    Result<DepositPlan, VaultError>)
    ensures
        r == deposit_outcome(escrow.status, escrow.total_amount, *config, amount, vault_balance),
{
    if config.paused {
        return Err(VaultError::ProgramPaused);
    }
    if !(escrow.status == EscrowStatus::Initialized || (escrow.status == EscrowStatus::Funded
        && amount > 0)) {
        return Err(VaultError::InvalidStatus);
    }
    if amount == 0 {
        return Err(VaultError::InvalidAmount);
    }
    let expected_total = match vault_balance.checked_add(amount) {
        Some(t) => t,
        None => {
            return Err(VaultError::ArithmeticOverflow);
        },
    };
    if expected_total > escrow.total_amount {
        return Err(VaultError::InvalidAmount);
    }
    proof {
        assert((amount as int) * (config.fee_basis_points as int) <= (u64::MAX as int) * 65535)
            by (nonlinear_arith);
    }
    let fee: u128 = (amount as u128) * (config.fee_basis_points as u128) / (BASIS_POINTS as u128);
    if fee > amount as u128 {
        return Err(VaultError::ArithmeticOverflow);
    }
    let fee = fee as u64;
    Ok(DepositPlan { deposit_amount: amount - fee, fee_amount: fee })
}

/// Records a deposit that has reached the vault: fully funded escrows become
/// `Active`, partly funded ones `Funded`.
pub fn record_deposit(escrow: &mut EscrowVault, vault_balance: u64, deposit_amount: u64, current_time: i64)
    requires
        vault_balance + deposit_amount <= u64::MAX,
    ensures
        final(escrow).status == if vault_balance + deposit_amount == old(escrow).total_amount {
            EscrowStatus::Active
        } else {
            EscrowStatus::Funded
        },
        final(escrow).updated_at == current_time,
        same_record_except_progress(&*old(escrow), &*final(escrow)),
        final(escrow).released_amount == old(escrow).released_amount,
        final(escrow).release_schedule@ == old(escrow).release_schedule@,
{
    if vault_balance + deposit_amount == escrow.total_amount {
        escrow.status = EscrowStatus::Active;
    } else {
        escrow.status = EscrowStatus::Funded;
    }
    escrow.updated_at = current_time;
}

/// Everything but the status, the released amount, the schedule and the
/// update time is the same in both records.
pub open spec fn same_record_except_progress(a: &EscrowVault, b: &EscrowVault) -> bool {
    &&& a.vault_id == b.vault_id
    &&& a.owner_program == b.owner_program
    &&& a.owner_account == b.owner_account
    &&& a.depositor == b.depositor
    &&& a.beneficiary == b.beneficiary
    &&& a.arbiter == b.arbiter
    &&& a.token_mint == b.token_mint
    &&& a.vault_token_account == b.vault_token_account
    &&& a.total_amount == b.total_amount
    &&& a.refunded_amount == b.refunded_amount
    &&& a.locked_amount == b.locked_amount
    &&& a.release_authority == b.release_authority
    &&& a.created_at == b.created_at
    &&& a.expires_at == b.expires_at
    &&& a.bump == b.bump
}

/// How much a withdrawal by `withdrawer` moves, or why it is refused.
pub open spec fn withdrawal_outcome(
    escrow: &EscrowVault,
    withdrawer: Seq<u8>,
    max_amount: Option<u64>,
    vault_balance: u64,
    now: i64,
) -> Result<u64, VaultError> {
    if !is_live(escrow.status) {
        Err(VaultError::InvalidStatus)
    } else if !escrow.may_withdraw(withdrawer) {
        Err(VaultError::Unauthorized)
    } else {
        match escrow.available(now) {
            Err(e) => Err(e),
            Ok(available) => {
                let amount = match max_amount {
                    Some(m) => if available <= m {
                        available
                    } else {
                        m
                    },
                    None => available,
                };
                if amount == 0 {
                    Err(VaultError::InvalidAmount)
                } else if vault_balance < amount {
                    Err(VaultError::InsufficientFunds)
                } else {
                    Ok(amount)
                }
            },
        }
    }
}

/// Decides a withdrawal; nothing changes until the transfer has happened and
/// `record_withdrawal` is called.
pub fn withdraw_available(
    escrow: &EscrowVault,
    withdrawer: &AccountKey,
    max_amount: Option<u64>,
    vault_balance: u64,
    current_time: i64,
) -> (r: Result<u64, VaultError>)
    ensures
        r == withdrawal_outcome(escrow, withdrawer@, max_amount, vault_balance, current_time),
{
    if !(escrow.status == EscrowStatus::Active || escrow.status == EscrowStatus::Funded) {
        return Err(VaultError::InvalidStatus);
    }
    let allowed = match escrow.can_withdraw(withdrawer) {
        Ok(b) => b,
        Err(e) => {
            return Err(e);
        },
    };
    if !allowed {
        return Err(VaultError::Unauthorized);
    }
    let available = match escrow.calculate_available(current_time) {
        Ok(a) => a,
        Err(e) => {
            return Err(e);
        },
    };
    let amount = match max_amount {
        Some(m) => if available <= m {
            available
        } else {
            m
        },
        None => available,
    };
    if amount == 0 {
        return Err(VaultError::InvalidAmount);
    }
    if vault_balance < amount {
        return Err(VaultError::InsufficientFunds);
    }
    Ok(amount)
}

/// Records a withdrawal that has been transferred; the escrow completes when
/// everything has been released. An overflow is an error and changes nothing.
pub fn record_withdrawal(escrow: &mut EscrowVault, amount: u64, current_time: i64) -> (r: Result<
    (),
    VaultError,
>)
    ensures
        old(escrow).released_amount + amount > u64::MAX ==> r == Err::<(), VaultError>(
            VaultError::ArithmeticOverflow,
        ) && *final(escrow) == *old(escrow),
        old(escrow).released_amount + amount <= u64::MAX ==> {
            &&& r is Ok
            &&& final(escrow).released_amount == old(escrow).released_amount + amount
            &&& final(escrow).updated_at == current_time
            &&& final(escrow).status == if final(escrow).released_amount == old(
                escrow,
            ).total_amount {
                EscrowStatus::Completed
            } else {
                old(escrow).status
            }
            &&& final(escrow).release_schedule@ == old(escrow).release_schedule@
            &&& same_record_except_progress(&*old(escrow), &*final(escrow))
        },
{
    let released = match escrow.released_amount.checked_add(amount) {
        Some(r) => r,
        None => {
            return Err(VaultError::ArithmeticOverflow);
        },
    };
    escrow.released_amount = released;
    escrow.updated_at = current_time;
    if escrow.released_amount == escrow.total_amount {
        escrow.status = EscrowStatus::Completed;
    }
    Ok(())
}

/// Whether an escrow is over: settled, or live but expired or fully released.
pub open spec fn escrow_ended(escrow: &EscrowVault, now: i64) -> bool {
    ||| escrow.status == EscrowStatus::Completed
    ||| escrow.status == EscrowStatus::Cancelled
    ||| is_live(escrow.status) && (escrow.released_amount == escrow.total_amount
        || (escrow.expires_at matches Some(e) && now > e))
}

/// Closes an ended escrow: what is left in the vault goes back to the
/// depositor, and the escrow is `Cancelled`. Returns the refund.
pub fn close_escrow(escrow: &mut EscrowVault, remaining_balance: u64, current_time: i64) -> (r: Result<
    u64,
    VaultError,
>)
    ensures
        !escrow_ended(&*old(escrow), current_time) ==> r == Err::<u64, VaultError>(
            VaultError::InvalidStatus,
        ) && *final(escrow) == *old(escrow),
        escrow_ended(&*old(escrow), current_time) ==> {
            &&& r == Ok::<u64, VaultError>(remaining_balance)
            &&& final(escrow).status == EscrowStatus::Cancelled
            &&& final(escrow).updated_at == current_time
            &&& final(escrow).released_amount == old(escrow).released_amount
            &&& final(escrow).release_schedule@ == old(escrow).release_schedule@
            &&& same_record_except_progress(&*old(escrow), &*final(escrow))
        },
{
    let live = escrow.status == EscrowStatus::Active || escrow.status == EscrowStatus::Funded;
    let expired = match escrow.expires_at {
        Some(e) => current_time > e,
        None => false,
    };
    let ended = escrow.status == EscrowStatus::Completed || escrow.status == EscrowStatus::Cancelled
        || (live && (escrow.released_amount == escrow.total_amount || expired));
    if !ended {
        return Err(VaultError::InvalidStatus);
    }
    escrow.status = EscrowStatus::Cancelled;
    escrow.updated_at = current_time;
    Ok(remaining_balance)
}

/// Whether `authority` may replace the schedule: the depositor or the arbiter.
pub open spec fn may_update_schedule(escrow: &EscrowVault, authority: Seq<u8>) -> bool {
    authority == escrow.depositor@ || (escrow.arbiter matches Some(a) && authority == a@)
}

/// Why a schedule replacement is refused, in the order the checks are made.
pub open spec fn update_schedule_error(
    escrow: &EscrowVault,
    config: EscrowConfig,
    authority: Seq<u8>,
    schedule: ScheduleModel,
) -> Option<VaultError> {
    if !may_update_schedule(escrow, authority) {
        Some(VaultError::Unauthorized)
    } else if config.paused {
        Some(VaultError::ProgramPaused)
    } else if !(is_live(escrow.status) || escrow.status == EscrowStatus::Paused) {
        Some(VaultError::InvalidStatus)
    } else {
        match schedule_check(schedule, escrow.total_amount, config.max_escrow_duration) {
            Err(e) => Some(e),
            Ok(_) => None,
        }
    }
}

/// Replaces the schedule, which must pass the same check as at creation.
pub fn update_release_schedule(
    escrow: &mut EscrowVault,
    config: &EscrowConfig,
    authority: &AccountKey,
    new_schedule: ReleaseSchedule,
    current_time: i64,
) -> (r: Result<(), VaultError>)
    ensures
        match r {
            Err(e) => update_schedule_error(&*old(escrow), *config, authority@, new_schedule@)
                == Some(e) && *final(escrow) == *old(escrow),
            Ok(_) => {
                &&& update_schedule_error(&*old(escrow), *config, authority@, new_schedule@) is None
                &&& final(escrow).release_schedule@ == new_schedule@
                &&& final(escrow).updated_at == current_time
                &&& final(escrow).status == old(escrow).status
                &&& final(escrow).released_amount == old(escrow).released_amount
                &&& same_record_except_progress(&*old(escrow), &*final(escrow))
            },
        },
{
    let is_arbiter = match &escrow.arbiter {
        Some(a) => authority.same_as(a),
        None => false,
    };
    if !(authority.same_as(&escrow.depositor) || is_arbiter) {
        return Err(VaultError::Unauthorized);
    }
    if config.paused {
        return Err(VaultError::ProgramPaused);
    }
    if !(escrow.status == EscrowStatus::Active || escrow.status == EscrowStatus::Funded
        || escrow.status == EscrowStatus::Paused) {
        return Err(VaultError::InvalidStatus);
    }
    match validate_schedule(&new_schedule, escrow.total_amount, config.max_escrow_duration) {
        Err(e) => {
            return Err(e);
        },
        Ok(_) => {},
    }
    escrow.release_schedule = new_schedule;
    escrow.updated_at = current_time;
    Ok(())
}

/// Position of the first condition at or after `i` with the id, or -1.
pub open spec fn find_milestone(conds: Seq<MilestoneCondition>, id: u32, i: int) -> int
    decreases conds.len() - i,
{
    if i < 0 || i >= conds.len() {
        -1
    } else if conds[i].milestone_id == id {
        i
    } else {
        find_milestone(conds, id, i + 1)
    }
}

/// The search finds a matching position or none.
pub proof fn lemma_find_milestone_range(conds: Seq<MilestoneCondition>, id: u32, i: int)
    ensures
        find_milestone(conds, id, i) == -1 || (0 <= i <= find_milestone(conds, id, i) < conds.len()
            && conds[find_milestone(conds, id, i)].milestone_id == id),
    decreases conds.len() - i,
{
    if 0 <= i < conds.len() && conds[i].milestone_id != id {
        lemma_find_milestone_range(conds, id, i + 1);
    }
}

/// Completing the first condition with the id, approved by `approver`: it
/// must exist, be open, and name `approver`.
pub open spec fn completion_of(conds: Seq<MilestoneCondition>, id: u32, approver: Seq<u8>) -> Result<
    Seq<MilestoneCondition>,
    VaultError,
> {
    let k = find_milestone(conds, id, 0);
    if k < 0 {
        Err(VaultError::MilestoneNotFound)
    } else if conds[k].is_completed {
        Err(VaultError::MilestoneAlreadyCompleted)
    } else if approver != conds[k].required_approval@ {
        Err(VaultError::Unauthorized)
    } else {
        Ok(conds.update(k, MilestoneCondition { is_completed: true, ..conds[k] }))
    }
}

/// The schedule after completing a milestone, or why that is refused.
pub open spec fn milestone_release_outcome(s: ScheduleModel, id: u32, approver: Seq<u8>) -> Result<
    ScheduleModel,
    VaultError,
> {
    match s {
        ScheduleModel::Milestone { conditions } => match completion_of(conditions, id, approver) {
            Ok(c) => Ok(ScheduleModel::Milestone { conditions: c }),
            Err(e) => Err(e),
        },
        ScheduleModel::Hybrid { linear_portion, milestone_portion, linear_config, milestone_config } => {
            match completion_of(milestone_config, id, approver) {
                Ok(c) => Ok(
                    ScheduleModel::Hybrid {
                        linear_portion,
                        milestone_portion,
                        linear_config,
                        milestone_config: c,
                    },
                ),
                Err(e) => Err(e),
            }
        },
        _ => Err(VaultError::InvalidMilestoneConfig),
    }
}

fn complete_milestone(conds: &mut Vec<MilestoneCondition>, id: u32, approver: &AccountKey) -> (r: Result<
    (),
    VaultError,
>)
    ensures
        match completion_of(old(conds)@, id, approver@) {
            Ok(c) => r is Ok && final(conds)@ == c,
            Err(e) => r == Err::<(), VaultError>(e) && final(conds)@ == old(conds)@,
        },
{
    proof {
        lemma_find_milestone_range(conds@, id, 0);
    }
    let mut i: usize = 0;
    while i < conds.len()
        invariant
            i <= conds@.len(),
            conds@ == old(conds)@,
            find_milestone(conds@, id, 0) == find_milestone(conds@, id, i as int),
        decreases conds@.len() - i,
    {
        if conds[i].milestone_id == id {
            let c = conds[i];
            if c.is_completed {
                return Err(VaultError::MilestoneAlreadyCompleted);
            }
            if !approver.same_as(&c.required_approval) {
                return Err(VaultError::Unauthorized);
            }
            conds.set(i, MilestoneCondition { is_completed: true, ..c });
            return Ok(());
        }
        i = i + 1;
    }
    Err(VaultError::MilestoneNotFound)
}

/// The two records agree on every field, schedules compared by content.
pub open spec fn same_escrow(a: &EscrowVault, b: &EscrowVault) -> bool {
    &&& same_record_except_progress(a, b)
    &&& a.status == b.status
    &&& a.released_amount == b.released_amount
    &&& a.updated_at == b.updated_at
    &&& a.release_schedule@ == b.release_schedule@
}

/// Completes a milestone on the approval of its designated approver; each
/// milestone completes once.
pub fn release_milestone(
    escrow: &mut EscrowVault,
    milestone_id: u32,
    authority: &AccountKey,
    current_time: i64,
) -> (r: Result<(), VaultError>)
    ensures
        !is_live(old(escrow).status) ==> r == Err::<(), VaultError>(VaultError::InvalidStatus)
            && same_escrow(&*old(escrow), &*final(escrow)),
        is_live(old(escrow).status) ==> match milestone_release_outcome(
            old(escrow).release_schedule@,
            milestone_id,
            authority@,
        ) {
            Err(e) => r == Err::<(), VaultError>(e) && same_escrow(&*old(escrow), &*final(escrow)),
            Ok(s) => {
                &&& r is Ok
                &&& final(escrow).release_schedule@ == s
                &&& final(escrow).updated_at == current_time
                &&& final(escrow).status == old(escrow).status
                &&& final(escrow).released_amount == old(escrow).released_amount
                &&& same_record_except_progress(&*old(escrow), &*final(escrow))
            },
        },
{
    if !(escrow.status == EscrowStatus::Active || escrow.status == EscrowStatus::Funded) {
        return Err(VaultError::InvalidStatus);
    }
    let result = match &mut escrow.release_schedule {
        ReleaseSchedule::Milestone { conditions } => complete_milestone(conditions, milestone_id, authority),
        ReleaseSchedule::Hybrid { milestone_config, .. } => complete_milestone(
            milestone_config,
            milestone_id,
            authority,
        ),
        _ => Err(VaultError::InvalidMilestoneConfig),
    };
    if result.is_ok() {
        escrow.updated_at = current_time;
    }
    result
}

} // verus!
