use stream_vault::curve::AccelerationType;
use stream_vault::errors::VaultError;
use stream_vault::escrow::{
    EscrowConfig, EscrowStatus, EscrowVault, LinearConfig, MilestoneCondition, ReleaseAuthority,
    ReleaseSchedule,
};
use stream_vault::escrow_ops::{
    close_escrow, create_escrow, deposit_funds, initialize_config, record_deposit,
    record_withdrawal, release_milestone, update_release_schedule, validate_schedule,
    withdraw_available, DepositPlan, EscrowParties,
};
use stream_vault::keys::AccountKey;

fn key(b: u8) -> AccountKey {
    AccountKey::new([b; 32])
}

fn config() -> EscrowConfig {
    initialize_config(key(50), key(51), 0, 1, 1_000_000, 1).unwrap()
}

fn parties() -> EscrowParties {
    EscrowParties {
        owner_program: key(10),
        owner_account: key(11),
        depositor: key(12),
        beneficiary: key(13),
        arbiter: Some(key(14)),
        token_mint: key(15),
        vault_token_account: key(16),
    }
}

fn milestone(id: u32, amount: u64, approver: u8) -> MilestoneCondition {
    MilestoneCondition {
        milestone_id: id,
        amount,
        required_approval: key(approver),
        is_completed: false,
    }
}

fn active_escrow(total: u64, schedule: ReleaseSchedule) -> EscrowVault {
    let cfg = config();
    let mut v = create_escrow(
        &cfg,
        1,
        parties(),
        total,
        schedule,
        ReleaseAuthority::Beneficiary,
        None,
        0,
        200,
    )
    .unwrap();
    let plan = deposit_funds(&v, &cfg, total, 0).unwrap();
    record_deposit(&mut v, 0, plan.deposit_amount, 1);
    v
}

#[test]
fn milestone_schedule_scenario() {
    let schedule = ReleaseSchedule::Milestone { conditions: vec![milestone(1, 400, 20), milestone(2, 600, 21)] };
    let mut v = active_escrow(1000, schedule);
    assert_eq!(v.status, EscrowStatus::Active);
    assert_eq!(v.calculate_available(5), Ok(0));
    assert_eq!(release_milestone(&mut v, 1, &key(20), 6), Ok(()));
    assert_eq!(v.calculate_available(7), Ok(400));
    assert_eq!(v.updated_at, 6);
    assert_eq!(release_milestone(&mut v, 1, &key(20), 8), Err(VaultError::MilestoneAlreadyCompleted));
    assert_eq!(v.calculate_available(9), Ok(400));
    assert_eq!(v.updated_at, 6);
}

#[test]
fn milestone_release_errors() {
    let schedule = ReleaseSchedule::Milestone { conditions: vec![milestone(1, 400, 20), milestone(2, 600, 21)] };
    let mut v = active_escrow(1000, schedule);
    assert_eq!(release_milestone(&mut v, 3, &key(20), 6), Err(VaultError::MilestoneNotFound));
    assert_eq!(release_milestone(&mut v, 2, &key(20), 6), Err(VaultError::Unauthorized));
    let mut lin = active_escrow(1000, ReleaseSchedule::Linear { start: 0, end: 100 });
    assert_eq!(release_milestone(&mut lin, 1, &key(20), 6), Err(VaultError::InvalidMilestoneConfig));
    let cfg = config();
    let mut fresh = create_escrow(&cfg, 2, parties(), 10, ReleaseSchedule::Immediate, ReleaseAuthority::Either, None, 0, 1)
        .unwrap();
    assert_eq!(release_milestone(&mut fresh, 1, &key(20), 6), Err(VaultError::InvalidStatus));
}

#[test]
fn linear_escrow_availability() {
    let mut v = active_escrow(1000, ReleaseSchedule::Linear { start: 100, end: 200 });
    assert_eq!(v.calculate_available(50), Ok(0));
    assert_eq!(v.calculate_available(150), Ok(500));
    assert_eq!(v.calculate_available(250), Ok(1000));
    v.released_amount = 300;
    assert_eq!(v.calculate_available(150), Ok(200));
    v.locked_amount = 400;
    assert_eq!(v.calculate_available(250), Ok(300));
    v.expires_at = Some(240);
    assert_eq!(v.calculate_available(250), Err(VaultError::VaultExpired));
    v.status = EscrowStatus::Paused;
    assert_eq!(v.calculate_available(150), Err(VaultError::InvalidStatus));
}

#[test]
fn hybrid_escrow_availability() {
    let schedule = ReleaseSchedule::Hybrid {
        linear_portion: 600,
        milestone_portion: 400,
        linear_config: LinearConfig { start_time: 0, end_time: 100, acceleration_type: AccelerationType::Quadratic },
        milestone_config: vec![milestone(1, 150, 20), milestone(2, 250, 21)],
    };
    let mut v = active_escrow(1000, schedule);
    assert_eq!(v.calculate_available(50), Ok(150));
    assert_eq!(release_milestone(&mut v, 2, &key(21), 60), Ok(()));
    assert_eq!(v.calculate_available(50), Ok(400));
    assert_eq!(v.calculate_available(100), Ok(850));
}

#[test]
fn custom_schedule_is_not_evaluated() {
    let v = active_escrow(1000, ReleaseSchedule::Custom { data: vec![1, 2, 3] });
    assert_eq!(v.calculate_available(10), Err(VaultError::UnsupportedSchedule));
}

#[test]
fn immediate_schedule_releases_all() {
    let v = active_escrow(1000, ReleaseSchedule::Immediate);
    assert_eq!(v.calculate_available(0), Ok(1000));
}

#[test]
fn schedule_validation() {
    let max = 1000;
    assert_eq!(validate_schedule(&ReleaseSchedule::Linear { start: 10, end: 10 }, 5, max), Err(VaultError::InvalidTimeRange));
    assert_eq!(validate_schedule(&ReleaseSchedule::Linear { start: 0, end: 1001 }, 5, max), Err(VaultError::InvalidTimeRange));
    assert_eq!(validate_schedule(&ReleaseSchedule::Linear { start: 0, end: 1000 }, 5, max), Ok(()));
    let bad = ReleaseSchedule::Milestone { conditions: vec![milestone(1, 400, 20), milestone(2, 500, 21)] };
    assert_eq!(validate_schedule(&bad, 1000, max), Err(VaultError::InvalidMilestoneConfig));
    let big = ReleaseSchedule::Milestone { conditions: vec![milestone(1, u64::MAX, 20), milestone(2, 1, 21)] };
    assert_eq!(validate_schedule(&big, 1000, max), Err(VaultError::ArithmeticOverflow));
    let hybrid = ReleaseSchedule::Hybrid {
        linear_portion: 600,
        milestone_portion: 400,
        linear_config: LinearConfig { start_time: 0, end_time: 100, acceleration_type: AccelerationType::Cubic },
        milestone_config: vec![milestone(1, 400, 20)],
    };
    assert_eq!(validate_schedule(&hybrid, 1000, max), Ok(()));
    assert_eq!(validate_schedule(&hybrid, 999, max), Err(VaultError::InvalidMilestoneConfig));
    assert_eq!(validate_schedule(&ReleaseSchedule::Custom { data: vec![] }, 1, max), Ok(()));
}

#[test]
fn validation_replays_to_same_verdict() {
    let s = ReleaseSchedule::Milestone { conditions: vec![milestone(1, 400, 20), milestone(2, 600, 21)] };
    let first = validate_schedule(&s, 1000, 10);
    let second = validate_schedule(&s, 1000, 10);
    assert_eq!(first, second);
    assert_eq!(first, Ok(()));
    let r1 = validate_schedule(&s, 999, 10);
    let r2 = validate_schedule(&s, 999, 10);
    assert_eq!(r1, r2);
    assert_eq!(r1, Err(VaultError::InvalidMilestoneConfig));
}

#[test]
fn create_escrow_errors() {
    let cfg = config();
    let sched = || ReleaseSchedule::Immediate;
    assert_eq!(
        create_escrow(&cfg, 1, parties(), 0, sched(), ReleaseAuthority::Beneficiary, None, 0, 1).err(),
        Some(VaultError::InvalidAmount)
    );
    assert_eq!(
        create_escrow(&cfg, 1, parties(), 10, sched(), ReleaseAuthority::Beneficiary, Some(5), 5, 1).err(),
        Some(VaultError::InvalidTimeRange)
    );
    let mut paused = cfg;
    paused.paused = true;
    assert_eq!(
        create_escrow(&paused, 1, parties(), 10, sched(), ReleaseAuthority::Beneficiary, None, 0, 1).err(),
        Some(VaultError::ProgramPaused)
    );
    let v = create_escrow(&cfg, 9, parties(), 10, sched(), ReleaseAuthority::Beneficiary, Some(6), 5, 3).unwrap();
    assert_eq!(v.status, EscrowStatus::Initialized);
    assert_eq!(v.vault_id, 9);
    assert_eq!(v.released_amount, 0);
    assert_eq!(v.created_at, 5);
}

#[test]
fn config_rules() {
    assert_eq!(initialize_config(key(1), key(2), 10001, 0, 10, 1).err(), Some(VaultError::InvalidAmount));
    assert_eq!(initialize_config(key(1), key(2), 100, 0, 0, 1).err(), Some(VaultError::InvalidTimeRange));
    let c = initialize_config(key(1), key(2), 100, 0, 10, 1).unwrap();
    assert_eq!(c.version, 1);
    assert!(!c.paused);
    assert_eq!(c.is_compatible(1), Ok(()));
    assert_eq!(c.is_compatible(2), Err(VaultError::IncompatibleVersion));
}

#[test]
fn deposits_fund_then_activate() {
    let cfg = initialize_config(key(1), key(2), 100, 0, 10, 1).unwrap();
    let mut v = create_escrow(&cfg, 1, parties(), 1000, ReleaseSchedule::Immediate, ReleaseAuthority::Beneficiary, None, 0, 1)
        .unwrap();
    assert_eq!(deposit_funds(&v, &cfg, 0, 0), Err(VaultError::InvalidAmount));
    assert_eq!(deposit_funds(&v, &cfg, 1001, 0), Err(VaultError::InvalidAmount));
    assert_eq!(deposit_funds(&v, &cfg, 1, u64::MAX), Err(VaultError::ArithmeticOverflow));
    let plan = deposit_funds(&v, &cfg, 500, 0).unwrap();
    assert_eq!(plan, DepositPlan { deposit_amount: 495, fee_amount: 5 });
    record_deposit(&mut v, 0, plan.deposit_amount, 3);
    assert_eq!(v.status, EscrowStatus::Funded);
    let plan = deposit_funds(&v, &cfg, 505, 495).unwrap();
    assert_eq!(plan.deposit_amount, 500);
    let free = initialize_config(key(1), key(2), 0, 0, 10, 1).unwrap();
    let plan = deposit_funds(&v, &free, 505, 495).unwrap();
    record_deposit(&mut v, 495, plan.deposit_amount, 4);
    assert_eq!(v.status, EscrowStatus::Active);
    assert_eq!(deposit_funds(&v, &free, 1, 0), Err(VaultError::InvalidStatus));
}

#[test]
fn withdrawals_complete_the_escrow() {
    let mut v = active_escrow(1000, ReleaseSchedule::Linear { start: 0, end: 100 });
    assert_eq!(withdraw_available(&v, &key(12), None, 1000, 50), Err(VaultError::Unauthorized));
    assert_eq!(withdraw_available(&v, &key(13), Some(100), 1000, 50), Ok(100));
    assert_eq!(withdraw_available(&v, &key(13), None, 400, 50), Err(VaultError::InsufficientFunds));
    assert_eq!(withdraw_available(&v, &key(13), Some(0), 1000, 50), Err(VaultError::InvalidAmount));
    let a = withdraw_available(&v, &key(13), None, 1000, 50).unwrap();
    assert_eq!(a, 500);
    assert_eq!(record_withdrawal(&mut v, a, 51), Ok(()));
    assert_eq!(v.status, EscrowStatus::Active);
    assert_eq!(v.calculate_available(50), Ok(0));
    let b = withdraw_available(&v, &key(13), None, 500, 100).unwrap();
    assert_eq!(b, 500);
    assert_eq!(record_withdrawal(&mut v, b, 101), Ok(()));
    assert_eq!(v.status, EscrowStatus::Completed);
    assert_eq!(withdraw_available(&v, &key(13), None, 0, 100), Err(VaultError::InvalidStatus));
    v.released_amount = u64::MAX;
    assert_eq!(record_withdrawal(&mut v, 1, 200), Err(VaultError::ArithmeticOverflow));
}

#[test]
fn withdraw_authorities() {
    let mut v = active_escrow(10, ReleaseSchedule::Immediate);
    assert_eq!(v.can_withdraw(&key(13)), Ok(true));
    v.release_authority = ReleaseAuthority::Depositor;
    assert_eq!(v.can_withdraw(&key(12)), Ok(true));
    assert_eq!(v.can_withdraw(&key(13)), Ok(false));
    v.release_authority = ReleaseAuthority::Either;
    assert_eq!(v.can_withdraw(&key(13)), Ok(true));
    assert_eq!(v.can_withdraw(&key(12)), Ok(true));
    v.release_authority = ReleaseAuthority::Both;
    assert_eq!(v.can_withdraw(&key(13)), Ok(false));
    v.release_authority = ReleaseAuthority::Program(key(30));
    assert_eq!(v.can_withdraw(&key(30)), Ok(true));
    v.release_authority = ReleaseAuthority::Arbiter;
    assert_eq!(v.can_withdraw(&key(14)), Ok(true));
    v.arbiter = None;
    assert_eq!(v.can_withdraw(&key(14)), Ok(false));
    assert_eq!(v.validate_owner_program(&key(10)), Ok(()));
    assert_eq!(v.validate_owner_program(&key(11)), Err(VaultError::UnauthorizedProgram));
    assert_eq!(v.validate_status(EscrowStatus::Active), Ok(()));
    assert_eq!(v.validate_status(EscrowStatus::Paused), Err(VaultError::InvalidStatus));
}

#[test]
fn schedule_replacement() {
    let cfg = config();
    let mut v = active_escrow(1000, ReleaseSchedule::Immediate);
    let lin = || ReleaseSchedule::Linear { start: 0, end: 100 };
    assert_eq!(update_release_schedule(&mut v, &cfg, &key(13), lin(), 5), Err(VaultError::Unauthorized));
    let bad = ReleaseSchedule::Milestone { conditions: vec![milestone(1, 10, 20)] };
    assert_eq!(update_release_schedule(&mut v, &cfg, &key(12), bad, 5), Err(VaultError::InvalidMilestoneConfig));
    assert_eq!(v.calculate_available(50), Ok(1000));
    assert_eq!(update_release_schedule(&mut v, &cfg, &key(14), lin(), 5), Ok(()));
    assert_eq!(v.calculate_available(50), Ok(500));
    assert_eq!(v.updated_at, 5);
    let mut paused = cfg;
    paused.paused = true;
    assert_eq!(update_release_schedule(&mut v, &paused, &key(12), lin(), 6), Err(VaultError::ProgramPaused));
    v.status = EscrowStatus::Completed;
    assert_eq!(update_release_schedule(&mut v, &cfg, &key(12), lin(), 6), Err(VaultError::InvalidStatus));
}

#[test]
fn closing_needs_an_ended_escrow() {
    let mut v = active_escrow(1000, ReleaseSchedule::Linear { start: 0, end: 100 });
    assert_eq!(close_escrow(&mut v, 1000, 50), Err(VaultError::InvalidStatus));
    assert_eq!(v.status, EscrowStatus::Active);
    v.expires_at = Some(60);
    assert_eq!(close_escrow(&mut v, 1000, 61), Ok(1000));
    assert_eq!(v.status, EscrowStatus::Cancelled);
    let mut done = active_escrow(10, ReleaseSchedule::Immediate);
    done.released_amount = 10;
    assert_eq!(close_escrow(&mut done, 0, 1), Ok(0));
}

#[test]
fn validation_verdict_survives_milestone_release() {
    let schedule = ReleaseSchedule::Hybrid {
        linear_portion: 600,
        milestone_portion: 400,
        linear_config: LinearConfig { start_time: 0, end_time: 100, acceleration_type: AccelerationType::Linear },
        milestone_config: vec![milestone(1, 150, 20), milestone(2, 250, 21)],
    };
    let mut v = active_escrow(1000, schedule);
    assert_eq!(validate_schedule(&v.release_schedule, 1000, 1_000_000), Ok(()));
    assert_eq!(release_milestone(&mut v, 1, &key(20), 3), Ok(()));
    assert_eq!(validate_schedule(&v.release_schedule, 1000, 1_000_000), Ok(()));
    assert_eq!(release_milestone(&mut v, 2, &key(21), 4), Ok(()));
    assert_eq!(validate_schedule(&v.release_schedule, 1000, 1_000_000), Ok(()));
    assert_eq!(v.calculate_available(100), Ok(1000));
}

#[test]
fn escrow_never_releases_beyond_total() {
    let mut v = active_escrow(1000, ReleaseSchedule::Linear { start: 0, end: 100 });
    for t in [10i64, 35, 60, 99, 100, 150] {
        if let Ok(a) = withdraw_available(&v, &key(13), None, 1000, t) {
            assert_eq!(record_withdrawal(&mut v, a, t), Ok(()));
            assert!(v.released_amount <= v.total_amount);
        }
    }
    assert_eq!(v.released_amount, 1000);
    assert_eq!(v.status, EscrowStatus::Completed);
}

#[test]
fn schedule_releasing_less_than_paid_out_is_an_error() {
    let cfg = config();
    let mut v = active_escrow(1000, ReleaseSchedule::Linear { start: 0, end: 100 });
    let a = withdraw_available(&v, &key(13), None, 1000, 50).unwrap();
    assert_eq!(record_withdrawal(&mut v, a, 50), Ok(()));
    let slower = ReleaseSchedule::Linear { start: 0, end: 1000 };
    assert_eq!(update_release_schedule(&mut v, &cfg, &key(12), slower, 60), Ok(()));
    assert_eq!(v.calculate_available(100), Err(VaultError::ArithmeticOverflow));
    assert_eq!(withdraw_available(&v, &key(13), None, 1000, 100), Err(VaultError::ArithmeticOverflow));
    assert_eq!(v.calculate_available(600), Ok(100));
}

#[test]
fn lock_or_payout_beyond_total_is_an_error() {
    let mut v = active_escrow(1000, ReleaseSchedule::Immediate);
    v.locked_amount = 1001;
    assert_eq!(v.calculate_available(0), Err(VaultError::ArithmeticOverflow));
    v.locked_amount = 600;
    v.released_amount = 500;
    assert_eq!(v.calculate_available(0), Err(VaultError::ArithmeticOverflow));
    v.released_amount = 400;
    assert_eq!(v.calculate_available(0), Ok(0));
}

#[test]
fn duplicate_milestone_ids_act_on_the_first() {
    let schedule = ReleaseSchedule::Milestone { conditions: vec![milestone(1, 400, 20), milestone(1, 600, 21)] };
    let mut v = active_escrow(1000, schedule);
    assert_eq!(release_milestone(&mut v, 1, &key(21), 2), Err(VaultError::Unauthorized));
    assert_eq!(release_milestone(&mut v, 1, &key(20), 2), Ok(()));
    assert_eq!(v.calculate_available(3), Ok(400));
    assert_eq!(release_milestone(&mut v, 1, &key(21), 4), Err(VaultError::MilestoneAlreadyCompleted));
    assert_eq!(v.calculate_available(5), Ok(400));
}
