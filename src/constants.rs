//! Fixed parameters: the pause/resume cap, withdrawal minimums and the mints
//! that are accepted.
use crate::keys::AccountKey;
use vstd::prelude::*;

verus! {

/// How many pause and resume operations one stream may have in all.
pub const MAX_PAUSE_RESUME_COUNT: u8 = 3;

/// Smallest withdrawal of a USDC-like mint, in base units.
pub const MIN_WITHDRAWAL_AMOUNT_USDC: u64 = 10_000_000;

/// Smallest withdrawal of wrapped SOL, in base units.
pub const MIN_WITHDRAWAL_AMOUNT_SOL: u64 = 10_000_000;

/// The USDC mint.
pub open spec fn usdc_mint_key() -> Seq<u8> {
    seq![198u8, 250u8, 122u8, 243u8, 190u8, 219u8, 173u8, 58u8, 61u8, 101u8, 243u8, 106u8, 171u8, 201u8, 116u8, 49u8, 177u8, 187u8, 228u8, 194u8, 210u8, 246u8, 224u8, 228u8, 124u8, 166u8, 2u8, 3u8, 69u8, 47u8, 93u8, 97u8]
}

pub fn usdc_mint() -> (r: AccountKey)
    ensures
        r@ == usdc_mint_key(),
{
    let r = AccountKey { bytes: [198, 250, 122, 243, 190, 219, 173, 58, 61, 101, 243, 106, 171, 201, 116, 49, 177, 187, 228, 194, 210, 246, 224, 228, 124, 166, 2, 3, 69, 47, 93, 97] };
    proof {
        assert(r@ =~= usdc_mint_key());
    }
    r
}

/// The USDT mint.
pub open spec fn usdt_mint_key() -> Seq<u8> {
    seq![206u8, 1u8, 14u8, 96u8, 175u8, 237u8, 178u8, 39u8, 23u8, 189u8, 99u8, 25u8, 47u8, 84u8, 20u8, 90u8, 63u8, 150u8, 90u8, 51u8, 187u8, 130u8, 210u8, 199u8, 2u8, 158u8, 178u8, 206u8, 30u8, 32u8, 130u8, 100u8]
}

pub fn usdt_mint() -> (r: AccountKey)
    ensures
        r@ == usdt_mint_key(),
{
    let r = AccountKey { bytes: [206, 1, 14, 96, 175, 237, 178, 39, 23, 189, 99, 25, 47, 84, 20, 90, 63, 150, 90, 51, 187, 130, 210, 199, 2, 158, 178, 206, 30, 32, 130, 100] };
    proof {
        assert(r@ =~= usdt_mint_key());
    }
    r
}

/// The USDC on devnet mint.
pub open spec fn usdc_devnet_mint_key() -> Seq<u8> {
    seq![59u8, 68u8, 44u8, 179u8, 145u8, 33u8, 87u8, 241u8, 58u8, 147u8, 61u8, 1u8, 52u8, 40u8, 45u8, 3u8, 43u8, 95u8, 254u8, 205u8, 1u8, 162u8, 219u8, 241u8, 183u8, 121u8, 6u8, 8u8, 223u8, 0u8, 46u8, 167u8]
}

pub fn usdc_devnet_mint() -> (r: AccountKey)
    ensures
        r@ == usdc_devnet_mint_key(),
{
    let r = AccountKey { bytes: [59, 68, 44, 179, 145, 33, 87, 241, 58, 147, 61, 1, 52, 40, 45, 3, 43, 95, 254, 205, 1, 162, 219, 241, 183, 121, 6, 8, 223, 0, 46, 167] };
    proof {
        assert(r@ =~= usdc_devnet_mint_key());
    }
    r
}

/// The wrapped SOL mint.
pub open spec fn wsol_mint_key() -> Seq<u8> {
    seq![6u8, 155u8, 136u8, 87u8, 254u8, 171u8, 129u8, 132u8, 251u8, 104u8, 127u8, 99u8, 70u8, 24u8, 192u8, 53u8, 218u8, 196u8, 57u8, 220u8, 26u8, 235u8, 59u8, 85u8, 152u8, 160u8, 240u8, 0u8, 0u8, 0u8, 0u8, 1u8]
}

pub fn wsol_mint() -> (r: AccountKey)
    ensures
        r@ == wsol_mint_key(),
{
    let r = AccountKey { bytes: [6, 155, 136, 87, 254, 171, 129, 132, 251, 104, 127, 99, 70, 24, 192, 53, 218, 196, 57, 220, 26, 235, 59, 85, 152, 160, 240, 0, 0, 0, 0, 1] };
    proof {
        assert(r@ =~= wsol_mint_key());
    }
    r
}

/// The mints that streams accept on any network.
pub open spec fn supported_mint(mint: Seq<u8>) -> bool {
    mint == usdc_mint_key() || mint == usdt_mint_key() || mint == usdc_devnet_mint_key() || mint
        == wsol_mint_key()
}

pub fn is_supported_mint(mint: &AccountKey) -> (r: bool)
    ensures
        r == supported_mint(mint@),
{
    mint.same_as(&usdc_mint()) || mint.same_as(&usdt_mint()) || mint.same_as(&usdc_devnet_mint())
        || mint.same_as(&wsol_mint())
}

/// The smallest amount of `mint` that a withdrawal may move.
pub open spec fn min_withdrawal_for(mint: Seq<u8>) -> u64 {
    if mint == wsol_mint_key() {
        MIN_WITHDRAWAL_AMOUNT_SOL
    } else {
        MIN_WITHDRAWAL_AMOUNT_USDC
    }
}

pub fn get_min_withdrawal_amount(mint: &AccountKey) -> (r: u64)
    ensures
        r == min_withdrawal_for(mint@),
{
    if mint.same_as(&wsol_mint()) {
        MIN_WITHDRAWAL_AMOUNT_SOL
    } else {
        MIN_WITHDRAWAL_AMOUNT_USDC
    }
}

} // verus!
