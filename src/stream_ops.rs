//! The stream operations as decisions on plain values. Each checks its
//! preconditions in order and fails with no change, or says what to move and
//! how the record changes. Transfers happen outside; the bookkeeping they
//! settle is committed only after them.
use crate::constants::{supported_mint, wsol_mint, wsol_mint_key, is_supported_mint, MAX_PAUSE_RESUME_COUNT};
use crate::curve::AccelerationType;
use crate::errors::StreamVaultError;
use crate::keys::AccountKey;
use crate::strategies::withdrawable_of;
use crate::stream::{Stream, StreamDuration, WEEK_IN_SECONDS};
use crate::utils::{
    mint_check_for_network,
    round_amount_for_precision,
    rounded_for_precision,
    validate_amount,
    validate_mint_decimals,
    validate_mint_for_network,
    validate_time_range,
    NetworkCluster,
};
use vstd::prelude::*;

verus! {

/// The accounts a new stream is made of.
#[derive(Clone, Copy, Debug)]
pub struct StreamParties {
    pub employer: AccountKey,
    pub freelancer: AccountKey,
    pub mint: AccountKey,
    pub vault: AccountKey,
}

/// Decimals a mint must have outside a local network.
pub open spec fn expected_decimals(mint: Seq<u8>) -> u8 {
    if mint == wsol_mint_key() {
        9
    } else {
        6
    }
}

/// Why a new stream is refused, in the order the checks are made.
pub open spec fn create_stream_error(
    mint: Seq<u8>,
    start_time: i64,
    duration_seconds: int,
    total_amount: u64,
    cluster: NetworkCluster,
    mint_decimals: u8,
) -> Option<StreamVaultError> {
    let end = start_time + duration_seconds;
    if end > i64::MAX {
        Some(StreamVaultError::MathOverflow)
    } else if end <= start_time {
        Some(StreamVaultError::InvalidTimeRange)
    } else if total_amount == 0 {
        Some(StreamVaultError::InvalidAmount)
    } else if cluster != NetworkCluster::Localnet && !supported_mint(mint) {
        Some(StreamVaultError::UnsupportedMint)
    } else if mint_check_for_network(cluster, mint) is Err {
        Some(mint_check_for_network(cluster, mint)->Err_0)
    } else if cluster != NetworkCluster::Localnet && mint_decimals != expected_decimals(mint) {
        Some(StreamVaultError::InvalidTokenDecimals)
    } else if !(start_time > 0 && end > 0) || end >= i64::MAX / 2 {
        Some(StreamVaultError::InvalidTimestamp)
    } else {
        None
    }
}

/// Creates an unfunded stream over `[start_time, start_time + duration)`.
pub fn create_stream(
    parties: StreamParties,
    stream_id: u64,
    start_time: i64,
    stream_duration: StreamDuration,
    total_amount: u64,
    acceleration_type: Option<AccelerationType>,
    current_time: i64,
    cluster: NetworkCluster,
    mint_decimals: u8,
    bump: u8,
) -> (r: Result<Stream, StreamVaultError>)
    ensures
        match r {
            Err(e) => create_stream_error(
                parties.mint@,
                start_time,
                stream_duration.weeks() * WEEK_IN_SECONDS,
                total_amount,
                cluster,
                mint_decimals,
            ) == Some(e),
            Ok(s) => {
                &&& create_stream_error(
                    parties.mint@,
                    start_time,
                    stream_duration.weeks() * WEEK_IN_SECONDS,
                    total_amount,
                    cluster,
                    mint_decimals,
                ) is None
                &&& s == Stream {
                    employer: parties.employer,
                    freelancer: parties.freelancer,
                    stream_id,
                    start_time,
                    end_time: (start_time + stream_duration.weeks() * WEEK_IN_SECONDS) as i64,
                    total_amount,
                    withdrawn_amount: 0,
                    is_paused: false,
                    pause_time: None,
                    total_paused_duration: 0,
                    pause_resume_count: 0,
                    last_operation_slot: 0,
                    accumulated_dust: 0,
                    mint: parties.mint,
                    vault: parties.vault,
                    acceleration_type: match acceleration_type {
                        Some(a) => a,
                        None => AccelerationType::Linear,
                    },
                    bump,
                    is_funded: false,
                }
                &&& s.well_formed()
            },
        },
{
    let duration_seconds = stream_duration.to_seconds();
    let end_time = match start_time.checked_add(duration_seconds) {
        Some(e) => e,
        None => {
            return Err(StreamVaultError::MathOverflow);
        },
    };
    match validate_time_range(start_time, end_time, current_time) {
        Err(e) => {
            return Err(e);
        },
        Ok(_) => {},
    }
    match validate_amount(total_amount) {
        Err(e) => {
            return Err(e);
        },
        Ok(_) => {},
    }
    let local = cluster == NetworkCluster::Localnet;
    if !local && !is_supported_mint(&parties.mint) {
        return Err(StreamVaultError::UnsupportedMint);
    }
    match validate_mint_for_network(cluster, &parties.mint) {
        Err(e) => {
            return Err(e);
        },
        Ok(_) => {},
    }
    if !local {
        let expected: u8 = if parties.mint.same_as(&wsol_mint()) {
            9
        } else {
            6
        };
        match validate_mint_decimals(mint_decimals, expected) {
            Err(e) => {
                return Err(e);
            },
            Ok(_) => {},
        }
    }
    if !(start_time > 0 && end_time > 0) || end_time >= i64::MAX / 2 {
        return Err(StreamVaultError::InvalidTimestamp);
    }
    let acceleration = match acceleration_type {
        Some(a) => a,
        None => AccelerationType::Linear,
    };
    Ok(
        Stream {
            employer: parties.employer,
            freelancer: parties.freelancer,
            stream_id,
            start_time,
            end_time,
            total_amount,
            withdrawn_amount: 0,
            is_paused: false,
            pause_time: None,
            total_paused_duration: 0,
            pause_resume_count: 0,
            last_operation_slot: 0,
            accumulated_dust: 0,
            mint: parties.mint,
            vault: parties.vault,
            acceleration_type: acceleration,
            bump,
            is_funded: false,
        },
    )
}

/// Why funding a stream is refused, in the order the checks are made.
pub open spec fn deposit_error(stream: Stream, amount: u64, now: i64, employer_balance: u64) -> Option<
    StreamVaultError,
> {
    if employer_balance < stream.total_amount {
        Some(StreamVaultError::InsufficientFunds)
    } else if stream.is_funded {
        Some(StreamVaultError::StreamAlreadyFunded)
    } else if stream.start_time <= now && !stream.is_paused {
        Some(StreamVaultError::StreamAlreadyStarted)
    } else if amount != stream.total_amount {
        Some(StreamVaultError::InvalidAmount)
    } else {
        None
    }
}

/// Decides a deposit: a stream is funded once, with exactly its total, before
/// it starts. Returns the amount to move into the vault.
pub fn deposit_to_escrow(stream: &Stream, amount: u64, current_time: i64, employer_balance: u64) -> (r:
    Result<u64, StreamVaultError>)
    ensures
        match deposit_error(*stream, amount, current_time, employer_balance) {
            Some(e) => r == Err::<u64, StreamVaultError>(e),
            None => r == Ok::<u64, StreamVaultError>(stream.total_amount),
        },
{
    if employer_balance < stream.total_amount {
        return Err(StreamVaultError::InsufficientFunds);
    }
    if stream.is_funded {
        return Err(StreamVaultError::StreamAlreadyFunded);
    }
    if stream.start_time <= current_time && !stream.is_paused {
        return Err(StreamVaultError::StreamAlreadyStarted);
    }
    if amount != stream.total_amount {
        return Err(StreamVaultError::InvalidAmount);
    }
    Ok(amount)
}

/// Records that the deposit reached the vault.
pub fn commit_deposit(stream: &mut Stream)
    ensures
        old(stream).well_formed() ==> final(stream).well_formed(),
        *final(stream) == (Stream { is_funded: true, ..*old(stream) }),
{
    stream.is_funded = true;
}

/// Why a withdrawal at `now` is refused before any rounding, in the order the
/// checks are made.
pub open spec fn withdrawal_precheck(stream: Stream, now: i64, slot: u64) -> Option<StreamVaultError> {
    if stream.last_operation_slot == slot {
        Some(StreamVaultError::ConcurrentOperation)
    } else if !stream.is_funded {
        Some(StreamVaultError::StreamNotFunded)
    } else if stream.is_paused {
        Some(StreamVaultError::StreamPaused)
    } else if stream.start_time > now {
        Some(StreamVaultError::StreamNotStarted)
    } else if withdrawable_of(stream.earned(now), stream.withdrawn_amount) is Err {
        Some(StreamVaultError::MathOverflow)
    } else if stream.withdrawn_amount >= stream.total_amount {
        Some(StreamVaultError::NoFundsAvailable)
    } else {
        None
    }
}

/// The amount a withdrawal at `now` would move: what is owed, rounded down
/// to the asset's precision.
pub open spec fn withdrawal_amount(stream: Stream, now: i64, decimals: u8) -> int {
    rounded_for_precision((stream.earned(now) - stream.withdrawn_amount) as u64, decimals)
}

/// Decides a withdrawal. When the rounded amount is under `min_withdrawal`
/// the call fails and the amount is added to the recorded dust; nothing else
/// changes, and the dust is not taken off what stays owed. Otherwise returns
/// the amount to transfer; `commit_withdrawal` records it once it has moved.
pub fn withdraw_streamed(
    stream: &mut Stream,
    current_time: i64,
    decimals: u8,
    min_withdrawal: u64,
    slot: u64,
) -> (r: Result<u64, StreamVaultError>)
    ensures
        old(stream).well_formed() ==> final(stream).well_formed(),
        withdrawal_precheck(*old(stream), current_time, slot) matches Some(e) ==> r == Err::<
            u64,
            StreamVaultError,
        >(e) && *final(stream) == *old(stream),
        withdrawal_precheck(*old(stream), current_time, slot) is None ==> {
            let amount = withdrawal_amount(*old(stream), current_time, decimals);
            if amount >= min_withdrawal {
                r == Ok::<u64, StreamVaultError>(amount as u64) && *final(stream) == *old(stream)
            } else if old(stream).accumulated_dust + amount > u64::MAX {
                r == Err::<u64, StreamVaultError>(StreamVaultError::MathOverflow) && *final(stream)
                    == *old(stream)
            } else {
                r == Err::<u64, StreamVaultError>(StreamVaultError::BelowMinimumWithdrawal)
                    && *final(stream) == (Stream {
                    accumulated_dust: (old(stream).accumulated_dust + amount) as u64,
                    ..*old(stream)
                })
            }
        },
{
    if stream.last_operation_slot == slot {
        return Err(StreamVaultError::ConcurrentOperation);
    }
    if !stream.is_funded {
        return Err(StreamVaultError::StreamNotFunded);
    }
    if stream.is_paused {
        return Err(StreamVaultError::StreamPaused);
    }
    if stream.start_time > current_time {
        return Err(StreamVaultError::StreamNotStarted);
    }
    let withdrawable = match stream.calculate_withdrawable_amount(current_time) {
        Ok(w) => w,
        Err(e) => {
            return Err(e);
        },
    };
    if !stream.has_remaining_funds() {
        return Err(StreamVaultError::NoFundsAvailable);
    }
    let amount = round_amount_for_precision(withdrawable, decimals);
    if amount < min_withdrawal {
        let dust = match stream.accumulated_dust.checked_add(amount) {
            Some(d) => d,
            None => {
                return Err(StreamVaultError::MathOverflow);
            },
        };
        stream.accumulated_dust = dust;
        return Err(StreamVaultError::BelowMinimumWithdrawal);
    }
    Ok(amount)
}

/// Records a transferred withdrawal and the operation's slot; an overflow is
/// an error and changes nothing.
pub fn commit_withdrawal(stream: &mut Stream, amount: u64, slot: u64) -> (r: Result<(), StreamVaultError>)
    ensures
        old(stream).withdrawn_amount + amount > u64::MAX ==> r == Err::<(), StreamVaultError>(
            StreamVaultError::MathOverflow,
        ) && *final(stream) == *old(stream),
        old(stream).withdrawn_amount + amount <= u64::MAX ==> r is Ok && *final(stream) == (Stream {
            withdrawn_amount: (old(stream).withdrawn_amount + amount) as u64,
            last_operation_slot: slot,
            ..*old(stream)
        }),
{
    let withdrawn = match stream.withdrawn_amount.checked_add(amount) {
        Some(w) => w,
        None => {
            return Err(StreamVaultError::MathOverflow);
        },
    };
    stream.withdrawn_amount = withdrawn;
    stream.last_operation_slot = slot;
    Ok(())
}

/// Why a pause or resume is refused before the pause ledger is consulted, in
/// the order the checks are made.
pub open spec fn pause_resume_precheck(stream: Stream, now: i64, slot: u64) -> Option<StreamVaultError> {
    if stream.last_operation_slot == slot {
        Some(StreamVaultError::ConcurrentOperation)
    } else if !stream.is_funded {
        Some(StreamVaultError::StreamNotFunded)
    } else if stream.auto_close_due(now) {
        Some(StreamVaultError::StreamAutoClosedDueToExcessivePause)
    } else if stream.pause_resume_count >= MAX_PAUSE_RESUME_COUNT {
        Some(StreamVaultError::MaxPauseResumeExceeded)
    } else {
        None
    }
}

/// Pauses a funded stream; counts against the pause/resume cap.
pub fn pause_stream(stream: &mut Stream, current_time: i64, slot: u64) -> (r: Result<(), StreamVaultError>)
    ensures
        old(stream).well_formed() ==> final(stream).well_formed(),
        pause_resume_precheck(*old(stream), current_time, slot) matches Some(e) ==> r == Err::<
            (),
            StreamVaultError,
        >(e) && *final(stream) == *old(stream),
        pause_resume_precheck(*old(stream), current_time, slot) is None && old(stream).is_paused
            ==> r == Err::<(), StreamVaultError>(StreamVaultError::AlreadyPaused) && *final(stream)
            == *old(stream),
        pause_resume_precheck(*old(stream), current_time, slot) is None && !old(stream).is_paused
            ==> r is Ok && *final(stream) == (Stream {
            is_paused: true,
            pause_time: Some(current_time),
            pause_resume_count: (old(stream).pause_resume_count + 1) as u8,
            last_operation_slot: slot,
            ..*old(stream)
        }),
{
    if stream.last_operation_slot == slot {
        return Err(StreamVaultError::ConcurrentOperation);
    }
    if !stream.is_funded {
        return Err(StreamVaultError::StreamNotFunded);
    }
    match stream.should_auto_close(current_time) {
        Ok(true) => {
            return Err(StreamVaultError::StreamAutoClosedDueToExcessivePause);
        },
        Ok(false) => {},
        Err(e) => {
            return Err(e);
        },
    }
    if stream.pause_resume_count >= MAX_PAUSE_RESUME_COUNT {
        return Err(StreamVaultError::MaxPauseResumeExceeded);
    }
    match stream.pause(current_time) {
        Err(e) => {
            return Err(e);
        },
        Ok(_) => {},
    }
    stream.pause_resume_count = stream.pause_resume_count + 1;
    stream.last_operation_slot = slot;
    Ok(())
}

/// Resumes a paused stream, adding the pause to the paused duration; counts
/// against the pause/resume cap.
pub fn resume_stream(stream: &mut Stream, current_time: i64, slot: u64) -> (r: Result<(), StreamVaultError>)
    ensures
        old(stream).well_formed() ==> final(stream).well_formed(),
        pause_resume_precheck(*old(stream), current_time, slot) matches Some(e) ==> r == Err::<
            (),
            StreamVaultError,
        >(e) && *final(stream) == *old(stream),
        pause_resume_precheck(*old(stream), current_time, slot) is None && !old(stream).is_paused
            ==> r == Err::<(), StreamVaultError>(StreamVaultError::NotPaused) && *final(stream)
            == *old(stream),
        pause_resume_precheck(*old(stream), current_time, slot) is None && old(stream).is_paused
            && old(stream).total_paused_duration + old(stream).current_pause_length(current_time)
            > i64::MAX ==> r == Err::<(), StreamVaultError>(StreamVaultError::MathOverflow)
            && *final(stream) == *old(stream),
        pause_resume_precheck(*old(stream), current_time, slot) is None && old(stream).is_paused
            && old(stream).total_paused_duration + old(stream).current_pause_length(current_time)
            <= i64::MAX ==> r is Ok && *final(stream) == (Stream {
            is_paused: false,
            pause_time: None,
            total_paused_duration: (old(stream).total_paused_duration + old(
                stream,
            ).current_pause_length(current_time)) as i64,
            pause_resume_count: (old(stream).pause_resume_count + 1) as u8,
            last_operation_slot: slot,
            ..*old(stream)
        }),
{
    if stream.last_operation_slot == slot {
        return Err(StreamVaultError::ConcurrentOperation);
    }
    if !stream.is_funded {
        return Err(StreamVaultError::StreamNotFunded);
    }
    match stream.should_auto_close(current_time) {
        Ok(true) => {
            return Err(StreamVaultError::StreamAutoClosedDueToExcessivePause);
        },
        Ok(false) => {},
        Err(e) => {
            return Err(e);
        },
    }
    if stream.pause_resume_count >= MAX_PAUSE_RESUME_COUNT {
        return Err(StreamVaultError::MaxPauseResumeExceeded);
    }
    match stream.resume(current_time) {
        Err(e) => {
            return Err(e);
        },
        Ok(_) => {},
    }
    stream.pause_resume_count = stream.pause_resume_count + 1;
    stream.last_operation_slot = slot;
    Ok(())
}

/// Decides a close: allowed once the stream has ended or been fully paid.
/// Returns what is left in the vault, to be refunded to the employer.
pub fn close_stream(stream: &Stream, current_time: i64, vault_balance: u64) -> (r: Result<
    u64,
    StreamVaultError,
>)
    ensures
        !stream.ended(current_time) && stream.withdrawn_amount < stream.total_amount ==> r == Err::<
            u64,
            StreamVaultError,
        >(StreamVaultError::StreamNotEnded),
        stream.ended(current_time) || stream.withdrawn_amount >= stream.total_amount ==> r == Ok::<
            u64,
            StreamVaultError,
        >(vault_balance),
{
    if !stream.is_ended(current_time) && stream.withdrawn_amount < stream.total_amount {
        return Err(StreamVaultError::StreamNotEnded);
    }
    Ok(vault_balance)
}

} // verus!
