//! Properties that hold across the library, stated over the same spec
//! functions that the operations' contracts use, and proved.
use crate::curve::{
    lemma_curve_amount_bounds,
    lemma_curve_amount_monotonic,
    lemma_curve_endpoints,
    AccelerationType,
};
use crate::errors::VaultError;
use crate::escrow::{
    lemma_completed_within_total,
    milestone_total,
    schedule_released,
    window_release,
    EscrowVault,
    MilestoneCondition,
    ReleaseSchedule,
    ScheduleModel,
};
use crate::escrow_ops::{
    completion_of,
    find_milestone,
    lemma_find_milestone_range,
    milestone_release_outcome,
    schedule_check,
    withdrawal_outcome,
};
use crate::strategies::{earned_at, lemma_earned_at_most_total, withdrawable_of};
use crate::stream::Stream;
use crate::stream_ops::{withdrawal_amount, withdrawal_precheck};
use crate::utils::lemma_rounding_at_most;
use vstd::prelude::*;

verus! {

/// Nothing is ever earned beyond the total, and what is withdrawable is never
/// more than the total less what has been withdrawn.
pub proof fn law_stream_amounts_bounded(
    curve: AccelerationType,
    total: u64,
    start: i64,
    end: i64,
    now: i64,
    paused: i64,
    is_paused: bool,
    pause_time: Option<i64>,
    withdrawn: u64,
)
    ensures
        0 <= earned_at(curve, total, start, end, now, paused, is_paused, pause_time) <= total,
        withdrawable_of(earned_at(curve, total, start, end, now, paused, is_paused, pause_time), withdrawn)
            matches Ok(w) ==> w <= total - withdrawn,
{
    lemma_earned_at_most_total(curve, total, start, end, now, paused, is_paused, pause_time);
}

/// The amount a stream withdrawal decides on, whether it is transferred or,
/// under the minimum, recorded as dust, is still owed: with what has been
/// withdrawn it stays within what has been earned, and so within the total.
pub proof fn law_stream_withdrawal_conserves(stream: Stream, now: i64, decimals: u8, slot: u64)
    requires
        withdrawal_precheck(stream, now, slot) is None,
    ensures
        0 <= withdrawal_amount(stream, now, decimals),
        stream.withdrawn_amount + withdrawal_amount(stream, now, decimals) <= stream.earned(now),
        stream.withdrawn_amount + withdrawal_amount(stream, now, decimals) <= stream.total_amount,
{
    lemma_earned_at_most_total(
        stream.acceleration_type,
        stream.total_amount,
        stream.start_time,
        stream.end_time,
        now,
        stream.total_paused_duration,
        stream.is_paused,
        stream.pause_time,
    );
    lemma_rounding_at_most((stream.earned(now) - stream.withdrawn_amount) as u64, decimals);
}

/// With the same pause history, a later instant never has less earned.
pub proof fn law_earned_monotonic_in_time(
    curve: AccelerationType,
    total: u64,
    start: i64,
    end: i64,
    t1: i64,
    t2: i64,
    paused: i64,
    is_paused: bool,
    pause_time: Option<i64>,
)
    requires
        t1 <= t2,
    ensures
        earned_at(curve, total, start, end, t1, paused, is_paused, pause_time) <= earned_at(
            curve,
            total,
            start,
            end,
            t2,
            paused,
            is_paused,
            pause_time,
        ),
{
    lemma_earned_at_most_total(curve, total, start, end, t1, paused, is_paused, pause_time);
    lemma_earned_at_most_total(curve, total, start, end, t2, paused, is_paused, pause_time);
    let duration = end - start;
    if t1 >= start && duration > 0 {
        let frozen = is_paused && pause_time.is_some();
        let e1: int = if frozen { pause_time->Some_0 as int } else { t1 as int };
        let e2: int = if frozen { pause_time->Some_0 as int } else { t2 as int };
        if e2 < end + paused {
            let r1 = e1 - start - paused;
            let r2 = e2 - start - paused;
            lemma_curve_amount_monotonic(
                curve,
                total as int,
                if r1 < 0 { 0 } else { r1 },
                if r2 < 0 { 0 } else { r2 },
                duration,
            );
        }
    }
}

/// Pausing freezes what has been earned: while paused since `p`, the earned
/// amount at any later instant is what it was at `p`.
pub proof fn law_pause_freezes_earned(
    curve: AccelerationType,
    total: u64,
    start: i64,
    end: i64,
    paused: i64,
    p: i64,
    now: i64,
)
    requires
        start < end,
        p <= now,
        0 <= paused,
    ensures
        earned_at(curve, total, start, end, now, paused, true, Some(p)) == earned_at(
            curve,
            total,
            start,
            end,
            p,
            paused,
            false,
            None,
        ),
{
    if end - start > 0 {
        lemma_curve_endpoints(curve, total as int, end - start);
    }
}

/// Resuming keeps what had been earned: after a pause from `p` to `r` is
/// added to the paused duration, the amount earned at `r` is the amount
/// earned when the pause began.
pub proof fn law_resume_keeps_earned(
    curve: AccelerationType,
    total: u64,
    start: i64,
    end: i64,
    paused: i64,
    p: i64,
    r: i64,
)
    requires
        start < end,
        p <= r,
        0 <= paused,
        paused + (r - p) <= i64::MAX,
    ensures
        earned_at(curve, total, start, end, r, (paused + (r - p)) as i64, false, None) == earned_at(
            curve,
            total,
            start,
            end,
            p,
            paused,
            false,
            None,
        ),
{
    if end - start > 0 {
        lemma_curve_endpoints(curve, total as int, end - start);
    }
}

/// More paused time never earns more at the same instant: paused time is
/// taken out of the elapsed time.
pub proof fn law_more_pause_never_earns_more(
    curve: AccelerationType,
    total: u64,
    start: i64,
    end: i64,
    now: i64,
    less: i64,
    more: i64,
)
    requires
        less <= more,
    ensures
        earned_at(curve, total, start, end, now, more, false, None) <= earned_at(
            curve,
            total,
            start,
            end,
            now,
            less,
            false,
            None,
        ),
{
    lemma_earned_at_most_total(curve, total, start, end, now, more, false, None);
    lemma_earned_at_most_total(curve, total, start, end, now, less, false, None);
    let duration = end - start;
    if now >= start && duration > 0 && now < end + more && now < end + less {
        let r1 = now - start - more;
        let r2 = now - start - less;
        lemma_curve_amount_monotonic(
            curve,
            total as int,
            if r1 < 0 { 0 } else { r1 },
            if r2 < 0 { 0 } else { r2 },
            duration,
        );
    }
}

/// Beyond the window pushed out by the longer of two pause histories, the
/// longer pause has earned no less than the shorter one: both have earned the
/// same, everything once the stream has started.
pub proof fn law_pause_settles_after_window(
    curve: AccelerationType,
    total: u64,
    start: i64,
    end: i64,
    now: i64,
    less: i64,
    more: i64,
)
    requires
        less <= more,
        now >= end + more,
    ensures
        earned_at(curve, total, start, end, now, more, false, None) >= earned_at(
            curve,
            total,
            start,
            end,
            now,
            less,
            false,
            None,
        ),
        earned_at(curve, total, start, end, now, more, false, None) == earned_at(
            curve,
            total,
            start,
            end,
            now,
            less,
            false,
            None,
        ),
        now >= start ==> earned_at(curve, total, start, end, now, more, false, None) == total,
{
}

proof fn lemma_window_release_at_most(curve: AccelerationType, amount: u64, start: i64, end: i64, now: i64)
    ensures
        0 <= window_release(curve, amount, start, end, now) <= amount,
{
    if start <= now < end {
        lemma_curve_amount_bounds(curve, amount as int, now - start, end - start);
    }
}

proof fn lemma_window_release_monotonic(
    curve: AccelerationType,
    amount: u64,
    start: i64,
    end: i64,
    t1: i64,
    t2: i64,
)
    requires
        t1 <= t2,
    ensures
        window_release(curve, amount, start, end, t1) <= window_release(curve, amount, start, end, t2),
{
    lemma_window_release_at_most(curve, amount, start, end, t1);
    lemma_window_release_at_most(curve, amount, start, end, t2);
    if start <= t1 && t2 < end {
        lemma_curve_amount_monotonic(curve, amount as int, t1 - start, t2 - start, end - start);
    }
}

/// A schedule that passed validation never releases more than the total.
pub proof fn law_schedule_release_bounded(s: ScheduleModel, total: u64, max_duration: i64, now: i64)
    requires
        schedule_check(s, total, max_duration) is Ok,
    ensures
        schedule_released(s, total, now) matches Ok(x) ==> x <= total,
{
    match s {
        ScheduleModel::Linear { start, end } => {
            lemma_window_release_at_most(AccelerationType::Linear, total, start, end, now);
        },
        ScheduleModel::Milestone { conditions } => {
            lemma_completed_within_total(conditions);
        },
        ScheduleModel::Hybrid { linear_portion, linear_config, milestone_config, .. } => {
            lemma_completed_within_total(milestone_config);
            lemma_window_release_at_most(
                linear_config.acceleration_type,
                linear_portion,
                linear_config.start_time,
                linear_config.end_time,
                now,
            );
        },
        _ => {},
    }
}

/// With the same completed milestones, a schedule never releases less at a
/// later instant.
pub proof fn law_schedule_release_monotonic(s: ScheduleModel, total: u64, t1: i64, t2: i64)
    requires
        t1 <= t2,
    ensures
        schedule_released(s, total, t1) is Ok && schedule_released(s, total, t2) is Ok
            ==> schedule_released(s, total, t1)->Ok_0 <= schedule_released(s, total, t2)->Ok_0,
{
    match s {
        ScheduleModel::Linear { start, end } => {
            lemma_window_release_monotonic(AccelerationType::Linear, total, start, end, t1, t2);
            lemma_window_release_at_most(AccelerationType::Linear, total, start, end, t1);
            lemma_window_release_at_most(AccelerationType::Linear, total, start, end, t2);
        },
        ScheduleModel::Hybrid { linear_portion, linear_config, milestone_config, .. } => {
            lemma_completed_within_total(milestone_config);
            lemma_window_release_monotonic(
                linear_config.acceleration_type,
                linear_portion,
                linear_config.start_time,
                linear_config.end_time,
                t1,
                t2,
            );
        },
        _ => {},
    }
}

/// What an escrow makes available, and what a withdrawal moves, never take
/// the released amount past the total.
pub proof fn law_escrow_withdrawal_conserves(
    escrow: &EscrowVault,
    withdrawer: Seq<u8>,
    max_amount: Option<u64>,
    vault_balance: u64,
    now: i64,
)
    requires
        escrow.well_formed(),
    ensures
        escrow.available(now) matches Ok(a) ==> escrow.released_amount + a <= escrow.total_amount,
        withdrawal_outcome(escrow, withdrawer, max_amount, vault_balance, now) matches Ok(a)
            ==> escrow.released_amount + a <= escrow.total_amount,
{
}

proof fn lemma_total_after_update(conds: Seq<MilestoneCondition>, k: int, c: MilestoneCondition)
    requires
        0 <= k < conds.len(),
        c.amount == conds[k].amount,
    ensures
        milestone_total(conds.update(k, c)) == milestone_total(conds),
    decreases conds.len(),
{
    let u = conds.update(k, c);
    if k < conds.len() - 1 {
        lemma_total_after_update(conds.drop_last(), k, c);
        assert(u.drop_last() =~= conds.drop_last().update(k, c));
    } else {
        assert(u.drop_last() =~= conds.drop_last());
    }
}

/// Completing a milestone changes no amount, so the milestones still sum to
/// the share assigned to them.
pub proof fn law_completion_keeps_milestone_total(conds: Seq<MilestoneCondition>, id: u32, approver: Seq<u8>)
    ensures
        completion_of(conds, id, approver) matches Ok(c) ==> milestone_total(c) == milestone_total(
            conds,
        ),
{
    if completion_of(conds, id, approver) is Ok {
        let k = find_milestone(conds, id, 0);
        lemma_find_milestone_range(conds, id, 0);
        lemma_total_after_update(conds, k, MilestoneCondition { is_completed: true, ..conds[k] });
    }
}

/// Validation is a function of the schedule's content, the total and the
/// maximum duration: replaying it gives the same verdict, and completing a
/// milestone does not change that verdict.
pub proof fn law_validation_replays(
    a: &ReleaseSchedule,
    b: &ReleaseSchedule,
    total: u64,
    max_duration: i64,
    id: u32,
    approver: Seq<u8>,
)
    requires
        a@ == b@,
    ensures
        schedule_check(a@, total, max_duration) == schedule_check(b@, total, max_duration),
        milestone_release_outcome(a@, id, approver) matches Ok(s) ==> schedule_check(
            s,
            total,
            max_duration,
        ) == schedule_check(a@, total, max_duration),
{
    match a@ {
        ScheduleModel::Milestone { conditions } => {
            law_completion_keeps_milestone_total(conditions, id, approver);
        },
        ScheduleModel::Hybrid { milestone_config, .. } => {
            law_completion_keeps_milestone_total(milestone_config, id, approver);
        },
        _ => {},
    }
}

/// A withdrawal under the minimum, decided in a new slot with room in the
/// dust counter, only adds the amount to the dust: what is earned and what
/// stays withdrawable are the same as before, so nothing is taken off twice.
pub proof fn law_below_minimum_keeps_amount_owed(
    stream: Stream,
    now: i64,
    decimals: u8,
    min_withdrawal: u64,
    slot: u64,
)
    requires
        withdrawal_precheck(stream, now, slot) is None,
        withdrawal_amount(stream, now, decimals) < min_withdrawal,
        stream.accumulated_dust + withdrawal_amount(stream, now, decimals) <= u64::MAX,
    ensures
        ({
            let after = Stream {
                accumulated_dust: (stream.accumulated_dust + withdrawal_amount(stream, now, decimals))
                    as u64,
                ..stream
            };
            &&& after.earned(now) == stream.earned(now)
            &&& withdrawable_of(after.earned(now), after.withdrawn_amount) == withdrawable_of(
                stream.earned(now),
                stream.withdrawn_amount,
            )
            &&& after.withdrawn_amount == stream.withdrawn_amount
            &&& after.accumulated_dust == stream.accumulated_dust + withdrawal_amount(
                stream,
                now,
                decimals,
            )
        }),
{
    law_stream_withdrawal_conserves(stream, now, decimals, slot);
}

proof fn lemma_find_with_same_ids(a: Seq<MilestoneCondition>, b: Seq<MilestoneCondition>, id: u32, i: int)
    requires
        a.len() == b.len(),
        forall|k: int| 0 <= k < a.len() ==> a[k].milestone_id == b[k].milestone_id,
    ensures
        find_milestone(a, id, i) == find_milestone(b, id, i),
    decreases a.len() - i,
{
    if 0 <= i < a.len() {
        lemma_find_with_same_ids(a, b, id, i + 1);
    }
}

/// A condition completed once cannot be completed again: the same request
/// then fails, by whoever it is made, and nothing is added twice.
pub proof fn law_second_completion_refused(
    conds: Seq<MilestoneCondition>,
    id: u32,
    approver: Seq<u8>,
    second_approver: Seq<u8>,
)
    requires
        completion_of(conds, id, approver) is Ok,
    ensures
        completion_of(completion_of(conds, id, approver)->Ok_0, id, second_approver) == Err::<
            Seq<MilestoneCondition>,
            VaultError,
        >(VaultError::MilestoneAlreadyCompleted),
{
    let k = find_milestone(conds, id, 0);
    lemma_find_milestone_range(conds, id, 0);
    let after = conds.update(k, MilestoneCondition { is_completed: true, ..conds[k] });
    lemma_find_with_same_ids(conds, after, id, 0);
}

/// Whether no two conditions share an id.
pub open spec fn unique_ids(conds: Seq<MilestoneCondition>) -> bool {
    forall|i: int, j: int|
        0 <= i < conds.len() && 0 <= j < conds.len() && i != j ==> conds[i].milestone_id
            != conds[j].milestone_id
}

proof fn lemma_find_first_from(conds: Seq<MilestoneCondition>, id: u32, i: int, j: int)
    requires
        0 <= i <= j < conds.len(),
        conds[j].milestone_id == id,
        forall|k: int| i <= k < j ==> conds[k].milestone_id != id,
    ensures
        find_milestone(conds, id, i) == j,
    decreases j - i,
{
    if i < j {
        lemma_find_first_from(conds, id, i + 1, j);
    }
}

/// With unique ids, completing milestone `id` acts on the one condition with
/// that id: it is refused if that condition is already complete or if the
/// signer is not its approver, and otherwise only that condition's flag is
/// set. Without any condition of that id it is refused as not found.
pub proof fn law_completion_with_unique_ids(conds: Seq<MilestoneCondition>, id: u32, approver: Seq<u8>)
    requires
        unique_ids(conds),
    ensures
        (forall|k: int| 0 <= k < conds.len() ==> conds[k].milestone_id != id) ==> completion_of(
            conds,
            id,
            approver,
        ) == Err::<Seq<MilestoneCondition>, VaultError>(VaultError::MilestoneNotFound),
        forall|j: int|
            0 <= j < conds.len() && #[trigger] conds[j].milestone_id == id ==> completion_of(
                conds,
                id,
                approver,
            ) == if conds[j].is_completed {
                Err::<Seq<MilestoneCondition>, VaultError>(VaultError::MilestoneAlreadyCompleted)
            } else if approver != conds[j].required_approval@ {
                Err(VaultError::Unauthorized)
            } else {
                Ok(conds.update(j, MilestoneCondition { is_completed: true, ..conds[j] }))
            },
{
    lemma_find_milestone_range(conds, id, 0);
    assert forall|j: int|
        0 <= j < conds.len() && #[trigger] conds[j].milestone_id == id implies find_milestone(
            conds,
            id,
            0,
        ) == j by {
        lemma_find_first_from(conds, id, 0, j);
    }
}

/// A schedule that passes validation splits the total exactly: milestones
/// sum to the total, or to their share with the linear share making up the
/// rest.
pub proof fn law_accepted_schedule_sums_to_total(s: ScheduleModel, total: u64, max_duration: i64)
    requires
        schedule_check(s, total, max_duration) is Ok,
    ensures
        s matches ScheduleModel::Milestone { conditions } ==> milestone_total(conditions) == total,
        s matches ScheduleModel::Hybrid {
            linear_portion,
            milestone_portion,
            milestone_config,
            ..
        } ==> linear_portion + milestone_portion == total && milestone_total(milestone_config)
            == milestone_portion,
{
}

/// On an escrow schedule, a milestone released once is refused the second
/// time, so its amount is never counted twice.
pub proof fn law_second_release_refused(s: ScheduleModel, id: u32, approver: Seq<u8>, second_approver: Seq<u8>)
    requires
        milestone_release_outcome(s, id, approver) is Ok,
    ensures
        milestone_release_outcome(milestone_release_outcome(s, id, approver)->Ok_0, id, second_approver)
            == Err::<ScheduleModel, VaultError>(VaultError::MilestoneAlreadyCompleted),
{
    match s {
        ScheduleModel::Milestone { conditions } => {
            law_second_completion_refused(conditions, id, approver, second_approver);
        },
        ScheduleModel::Hybrid { milestone_config, .. } => {
            law_second_completion_refused(milestone_config, id, approver, second_approver);
        },
        _ => {},
    }
}

} // verus!
