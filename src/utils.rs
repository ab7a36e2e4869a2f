//! Input validation, precision rounding, dust policy, the mint allow-list per
//! network, and address seeds.
use crate::constants::{
    is_supported_mint,
    supported_mint,
    usdc_devnet_mint,
    usdc_devnet_mint_key,
    usdc_mint,
    usdc_mint_key,
    usdt_mint,
    usdt_mint_key,
    wsol_mint,
    wsol_mint_key,
};
use crate::errors::StreamVaultError;
use crate::keys::{zero_key, AccountKey};
use crate::strategies::{release_rate, release_rate_of};
use vstd::arithmetic::div_mod::{lemma_basic_div, lemma_fundamental_div_mod};
use vstd::prelude::*;

verus! {

/// A window must end strictly after it starts.
pub fn validate_time_range(start_time: i64, end_time: i64, current_time: i64) -> (r: Result<(), StreamVaultError>)
    ensures
        r == if end_time <= start_time {
            Err(StreamVaultError::InvalidTimeRange)
        } else {
            Ok::<(), StreamVaultError>(())
        },
{
    if end_time <= start_time {
        return Err(StreamVaultError::InvalidTimeRange);
    }
    Ok(())
}

/// An amount must not be zero.
pub fn validate_amount(amount: u64) -> (r: Result<(), StreamVaultError>)
    ensures
        r == if amount == 0 {
            Err(StreamVaultError::InvalidAmount)
        } else {
            Ok::<(), StreamVaultError>(())
        },
{
    if amount == 0 {
        return Err(StreamVaultError::InvalidAmount);
    }
    Ok(())
}

/// Average release per second of `total_amount` over the window.
pub fn calculate_release_rate(total_amount: u64, start_time: i64, end_time: i64) -> (r: Result<u64, StreamVaultError>)
    ensures
        r == release_rate_of(total_amount, start_time, end_time, 1),
{
    release_rate(total_amount, start_time, end_time, 1)
}

/// Ten to the power `k`.
pub open spec fn pow10(k: nat) -> nat
    decreases k,
{
    if k == 0 {
        1
    } else {
        10 * pow10((k - 1) as nat)
    }
}

proof fn lemma_pow10_monotonic(i: nat, j: nat)
    requires
        i <= j,
    ensures
        1 <= pow10(i) <= pow10(j),
    decreases j,
{
    if j > i {
        lemma_pow10_monotonic(i, (j - 1) as nat);
    } else if i > 0 {
        lemma_pow10_monotonic((i - 1) as nat, (i - 1) as nat);
    }
}

proof fn lemma_pow10_values()
    ensures
        pow10(19) == 10_000_000_000_000_000_000nat,
        pow10(20) == 100_000_000_000_000_000_000nat,
{
    reveal_with_fuel(pow10, 21);
}

/// Computes `pow10(k)` for exponents whose power fits in 64 bits.
fn power_of_ten(k: u32) -> (r: u64)
    requires
        k <= 19,
    ensures
        r == pow10(k as nat),
{
    proof {
        lemma_pow10_values();
        lemma_pow10_monotonic(k as nat, 19);
    }
    let mut r: u64 = 1;
    let mut i: u32 = 0;
    while i < k
        invariant
            i <= k <= 19,
            r == pow10(i as nat),
            pow10(19) == 10_000_000_000_000_000_000nat,
        decreases k - i,
    {
        proof {
            lemma_pow10_monotonic((i + 1) as nat, 19);
        }
        r = r * 10;
        i = i + 1;
    }
    r
}

/// How many low decimal digits an asset with `decimals` loses to rounding.
pub open spec fn precision_digits(decimals: u8) -> nat {
    if decimals > 6 {
        (decimals - 6) as nat
    } else {
        0
    }
}

/// `amount` rounded down to six decimals of precision.
pub open spec fn rounded_for_precision(amount: u64, decimals: u8) -> int {
    let f = pow10(precision_digits(decimals)) as int;
    (amount as int / f) * f
}

/// Rounding down never adds to an amount.
pub proof fn lemma_rounding_at_most(amount: u64, decimals: u8)
    ensures
        0 <= rounded_for_precision(amount, decimals) <= amount,
{
    let f = pow10(precision_digits(decimals)) as int;
    lemma_pow10_monotonic(0, precision_digits(decimals));
    lemma_fundamental_div_mod(amount as int, f);
    assert(0 <= (amount as int / f) * f) by (nonlinear_arith)
        requires
            0 <= amount,
            0 < f,
    ;
}

/// Rounds `amount` down to six decimals of precision; the digits below are
/// left for a later withdrawal.
pub fn round_amount_for_precision(amount: u64, decimals: u8) -> (r: u64)
    ensures
        r == rounded_for_precision(amount, decimals),
        r <= amount,
{
    proof {
        lemma_rounding_at_most(amount, decimals);
    }
    let k: u8 = decimals.saturating_sub(6);
    if k >= 20 {
        proof {
            lemma_pow10_values();
            lemma_pow10_monotonic(20, k as nat);
            lemma_basic_div(amount as int, pow10(k as nat) as int);
        }
        return 0;
    }
    let f = power_of_ten(k as u32);
    proof {
        lemma_pow10_monotonic(0, k as nat);
    }
    (amount / f) * f
}

/// The amount under which a balance of an asset with `decimals` is dust.
pub open spec fn dust_threshold(decimals: u8) -> nat {
    if decimals == 6 {
        100
    } else if decimals == 9 {
        100_000
    } else {
        pow10((decimals - 4) as nat)
    }
}

pub fn get_dust_threshold(decimals: u8) -> (r: u64)
    requires
        4 <= decimals <= 23,
    ensures
        r == dust_threshold(decimals),
{
    if decimals == 6 {
        100
    } else if decimals == 9 {
        100_000
    } else {
        power_of_ten((decimals - 4) as u32)
    }
}

/// A positive amount under the dust threshold.
pub fn is_dust_amount(amount: u64, decimals: u8) -> (r: bool)
    requires
        4 <= decimals <= 23,
    ensures
        r == (amount > 0 && amount < dust_threshold(decimals)),
{
    amount > 0 && amount < get_dust_threshold(decimals)
}

/// The deployment a program runs in; it decides which mints are accepted.
#[derive(Clone, Copy, Debug, PartialEq, Eq, Structural)]
pub enum NetworkCluster {
    Mainnet,
    Devnet,
    Testnet,
    Localnet,
}

/// Which mints a network accepts, and the error for the others.
pub open spec fn mint_check_for_network(cluster: NetworkCluster, mint: Seq<u8>) -> Result<
    (),
    StreamVaultError,
> {
    match cluster {
        NetworkCluster::Mainnet => if mint == usdc_mint_key() || mint == usdt_mint_key() || mint
            == wsol_mint_key() {
            Ok(())
        } else {
            Err(StreamVaultError::InvalidNetworkMint)
        },
        NetworkCluster::Devnet => if mint == usdc_devnet_mint_key() || mint == wsol_mint_key() {
            Ok(())
        } else {
            Err(StreamVaultError::InvalidNetworkMint)
        },
        NetworkCluster::Localnet => Ok(()),
        NetworkCluster::Testnet => if supported_mint(mint) {
            Ok(())
        } else {
            Err(StreamVaultError::UnsupportedMint)
        },
    }
}

pub fn validate_mint_for_network(cluster: NetworkCluster, mint: &AccountKey) -> (r: Result<
    (),
    StreamVaultError,
>)
    ensures
        r == mint_check_for_network(cluster, mint@),
{
    match cluster {
        NetworkCluster::Mainnet => {
            if mint.same_as(&usdc_mint()) || mint.same_as(&usdt_mint()) || mint.same_as(
                &wsol_mint(),
            ) {
                Ok(())
            } else {
                Err(StreamVaultError::InvalidNetworkMint)
            }
        },
        NetworkCluster::Devnet => {
            if mint.same_as(&usdc_devnet_mint()) || mint.same_as(&wsol_mint()) {
                Ok(())
            } else {
                Err(StreamVaultError::InvalidNetworkMint)
            }
        },
        NetworkCluster::Localnet => Ok(()),
        NetworkCluster::Testnet => {
            if is_supported_mint(mint) {
                Ok(())
            } else {
                Err(StreamVaultError::UnsupportedMint)
            }
        },
    }
}

/// A mint must have the decimals the stream expects.
pub fn validate_mint_decimals(decimals: u8, expected_decimals: u8) -> (r: Result<(), StreamVaultError>)
    ensures
        r == if decimals == expected_decimals {
            Ok::<(), StreamVaultError>(())
        } else {
            Err(StreamVaultError::InvalidTokenDecimals)
        },
{
    if decimals == expected_decimals {
        Ok(())
    } else {
        Err(StreamVaultError::InvalidTokenDecimals)
    }
}

/// Offset of the state byte in a token account's data.
pub const TOKEN_ACCOUNT_STATE_OFFSET: usize = 108;

/// State byte value of a frozen token account.
pub const TOKEN_ACCOUNT_FROZEN: u8 = 2;

/// Whether a token account, given its raw data and owner, is frozen or
/// ownerless.
pub open spec fn token_account_blocked(data: Seq<u8>, owner: Seq<u8>) -> bool {
    (data.len() > TOKEN_ACCOUNT_STATE_OFFSET && data[TOKEN_ACCOUNT_STATE_OFFSET as int]
        == TOKEN_ACCOUNT_FROZEN) || owner == zero_key()
}

/// Refuses a token account that is frozen or has no owner.
pub fn validate_token_account_not_frozen(data: &Vec<u8>, owner: &AccountKey) -> (r: Result<
    (),
    StreamVaultError,
>)
    ensures
        r == if token_account_blocked(data@, owner@) {
            Err(StreamVaultError::FrozenTokenAccount)
        } else {
            Ok::<(), StreamVaultError>(())
        },
{
    if data.len() > TOKEN_ACCOUNT_STATE_OFFSET && data[TOKEN_ACCOUNT_STATE_OFFSET]
        == TOKEN_ACCOUNT_FROZEN {
        return Err(StreamVaultError::FrozenTokenAccount);
    }
    if owner.is_zero() {
        return Err(StreamVaultError::FrozenTokenAccount);
    }
    Ok(())
}

/// The little-endian bytes of `x`.
pub open spec fn le_bytes(x: u64) -> Seq<u8> {
    seq![
        (x & 0xff) as u8,
        ((x >> 8u64) & 0xff) as u8,
        ((x >> 16u64) & 0xff) as u8,
        ((x >> 24u64) & 0xff) as u8,
        ((x >> 32u64) & 0xff) as u8,
        ((x >> 40u64) & 0xff) as u8,
        ((x >> 48u64) & 0xff) as u8,
        ((x >> 56u64) & 0xff) as u8,
    ]
}

fn le_bytes_of(x: u64) -> (r: Vec<u8>)
    ensures
        r@ == le_bytes(x),
{
    let r = vec![
        (x & 0xff) as u8,
        ((x >> 8u64) & 0xff) as u8,
        ((x >> 16u64) & 0xff) as u8,
        ((x >> 24u64) & 0xff) as u8,
        ((x >> 32u64) & 0xff) as u8,
        ((x >> 40u64) & 0xff) as u8,
        ((x >> 48u64) & 0xff) as u8,
        ((x >> 56u64) & 0xff) as u8,
    ];
    proof {
        assert(r@ =~= le_bytes(x));
    }
    r
}

fn key_bytes(k: &AccountKey) -> (r: Vec<u8>)
    ensures
        r@ == k@,
{
    let mut r: Vec<u8> = Vec::new();
    let mut i: usize = 0;
    while i < 32
        invariant
            i <= 32,
            k@.len() == 32,
            r@ == k@.subrange(0, i as int),
        decreases 32 - i,
    {
        r.push(k.bytes[i]);
        i = i + 1;
        proof {
            assert(r@ =~= k@.subrange(0, i as int));
        }
    }
    proof {
        assert(k@.subrange(0, 32) =~= k@);
    }
    r
}

/// The seed tag of a stream address.
pub open spec fn sprint_tag() -> Seq<u8> {
    seq![115u8, 112u8, 114u8, 105u8, 110u8, 116u8]
}

/// The seed tag of a vault address.
pub open spec fn vault_tag() -> Seq<u8> {
    seq![118u8, 97u8, 117u8, 108u8, 116u8]
}

/// Seeds of a stream's address: the tag, the employer, the id.
pub fn get_sprint_seeds(employer: &AccountKey, sprint_id: u64) -> (r: Vec<Vec<u8>>)
    ensures
        r@.len() == 3,
        r@[0]@ == sprint_tag(),
        r@[1]@ == employer@,
        r@[2]@ == le_bytes(sprint_id),
{
    let tag: Vec<u8> = vec![115, 112, 114, 105, 110, 116];
    proof {
        assert(tag@ =~= sprint_tag());
    }
    let mut r: Vec<Vec<u8>> = Vec::new();
    r.push(tag);
    r.push(key_bytes(employer));
    r.push(le_bytes_of(sprint_id));
    r
}

/// Seeds of a vault's address: the tag and the stream.
pub fn get_vault_seeds(sprint: &AccountKey) -> (r: Vec<Vec<u8>>)
    ensures
        r@.len() == 2,
        r@[0]@ == vault_tag(),
        r@[1]@ == sprint@,
{
    let tag: Vec<u8> = vec![118, 97, 117, 108, 116];
    proof {
        assert(tag@ =~= vault_tag());
    }
    let mut r: Vec<Vec<u8>> = Vec::new();
    r.push(tag);
    r.push(key_bytes(sprint));
    r
}

} // verus!
