//! A marketplace for unique assets: an owner locks an asset in escrow under a
//! price, and a buyer later settles the purchase in one indivisible step that
//! pays the seller, the treasury and, under one policy, the creator, while
//! the asset moves from the escrow to the buyer.
//!
//! The functions of this file are the operations that the marketplace offers
//! at its boundary. Each takes the accounts it works on as a context of plain
//! values, and either succeeds or is refused with the context unchanged.

use vstd::prelude::*;
use crate::contexts::buy_nft::BuyNft;
use crate::contexts::delist_nft::DelistNft;
use crate::contexts::marketplace::{
    CloseMarketplace, InitializeMarketplace, ListNFT, PauseMarketplace,
};
use crate::contexts::update_listing::UpdateListingMint;
use crate::errors::MarketplaceError;
use crate::pda::bump_of;
use crate::settlement::SettlementPolicy;

pub mod accounts;
pub mod contexts;
pub mod errors;
pub mod lifecycle;
pub mod metadata;
pub mod pda;
pub mod settlement;
pub mod state;

verus! {

/// Sets the marketplace up with a fee rate in basis points; the caller
/// becomes its authority. A rate above 10000 is refused.
pub fn initialize_marketplace(ctx: &mut InitializeMarketplace, fee_percentage: u16) -> (r: Result<
    (),
    MarketplaceError,
>)
    ensures
        match old(ctx).initialize_error(fee_percentage, InitializeMarketplace::derived_address()) {
            Some(e) => r == Err::<(), MarketplaceError>(e) && *final(ctx) == *old(ctx),
            None => r is Ok && *final(ctx) == old(ctx).initialized(
                fee_percentage,
                bump_of(InitializeMarketplace::derived_address()),
            ),
        },
        fee_percentage > 10000 ==> r == Err::<(), MarketplaceError>(
            MarketplaceError::InvalidFeePercentage,
        ),
{
    ctx.initialize(fee_percentage)
}

/// Lists an asset at `price` for `duration` seconds: the asset is locked in
/// escrow and an active listing is created. Refused while the marketplace is
/// paused, whatever else holds.
pub fn list_nft(ctx: &mut ListNFT, price: u64, duration: i64) -> (r: Result<(), MarketplaceError>)
    ensures
        match old(ctx).listing_error(price, duration, old(ctx).derived_address()) {
            Some(e) => r == Err::<(), MarketplaceError>(e) && *final(ctx) == *old(ctx),
            None => r is Ok && *final(ctx) == old(ctx).listed(
                price,
                duration,
                bump_of(old(ctx).derived_address()),
            ),
        },
        old(ctx).marketplace_config.is_paused ==> r == Err::<(), MarketplaceError>(
            MarketplaceError::MarketplacePaused,
        ),
        r is Ok ==> final(ctx).escrow_invariant(),
{
    ctx.list_nft(price, duration)
}

/// Changes the price and the term of an active listing; only its seller may.
pub fn update_listing(ctx: &mut UpdateListingMint, price: u64, duration: i64) -> (r: Result<
    (),
    MarketplaceError,
>)
    ensures
        match old(ctx).update_error(price, duration) {
            Some(e) => r == Err::<(), MarketplaceError>(e) && *final(ctx) == *old(ctx),
            None => r is Ok && *final(ctx) == old(ctx).updated(price, duration),
        },
{
    ctx.update_listing(price, duration)
}

/// Pauses the marketplace; only its authority may.
pub fn pause_marketplace(ctx: &mut PauseMarketplace) -> (r: Result<(), MarketplaceError>)
    ensures
        match old(ctx).pause_error() {
            Some(e) => r == Err::<(), MarketplaceError>(e) && *final(ctx) == *old(ctx),
            None => r is Ok && *final(ctx) == old(ctx).with_pause(true),
        },
{
    ctx.pause()
}

/// Takes the pause of the marketplace back; only its authority may.
pub fn unpause_marketplace(ctx: &mut PauseMarketplace) -> (r: Result<(), MarketplaceError>)
    ensures
        match old(ctx).pause_error() {
            Some(e) => r == Err::<(), MarketplaceError>(e) && *final(ctx) == *old(ctx),
            None => r is Ok && *final(ctx) == old(ctx).with_pause(false),
        },
{
    ctx.unpause()
}

/// Closes the marketplace; only its authority may, and it reclaims the
/// storage of the configuration.
pub fn close_marketplace(ctx: &mut CloseMarketplace) -> (r: Result<(), MarketplaceError>)
    ensures
        match old(ctx).close_error() {
            Some(e) => r == Err::<(), MarketplaceError>(e) && *final(ctx) == *old(ctx),
            None => r is Ok && *final(ctx) == old(ctx).closed(),
        },
{
    crate::contexts::marketplace::close_marketplace(ctx)
}

/// Buys a listed asset under the given policy. Refused while the marketplace
/// is paused, whatever else holds, and where buyer and seller are the same.
/// Either every transfer of the purchase is made, or none is.
pub fn buy_nft(ctx: &mut BuyNft, policy: SettlementPolicy) -> (r: Result<(), MarketplaceError>)
    ensures
        match old(ctx).purchase_error(policy) {
            Some(e) => r == Err::<(), MarketplaceError>(e) && *final(ctx) == *old(ctx),
            None => r is Ok && *final(ctx) == old(ctx).purchased(old(ctx).settlement(policy)->0),
        },
        old(ctx).config.is_paused ==> r == Err::<(), MarketplaceError>(
            MarketplaceError::MarketplacePaused,
        ),
        !old(ctx).config.is_paused && old(ctx).buyer.key == old(ctx).seller.key ==> r == Err::<
            (),
            MarketplaceError,
        >(MarketplaceError::CannotBuyOwnNFT),
        r is Err ==> *final(ctx) == *old(ctx),
        old(ctx).escrow_invariant() ==> final(ctx).escrow_invariant(),
{
    match ctx.purchase(policy) {
        Ok(_) => Ok(()),
        Err(e) => Err(e),
    }
}

/// Takes a listing back: the asset returns to the seller, who alone may ask,
/// and the listing and its escrow are closed.
pub fn delist_nft(ctx: &mut DelistNft) -> (r: Result<(), MarketplaceError>)
    ensures
        match old(ctx).delist_error() {
            Some(e) => r == Err::<(), MarketplaceError>(e) && *final(ctx) == *old(ctx),
            None => r is Ok && *final(ctx) == old(ctx).delisted(),
        },
        old(ctx).escrow_invariant() ==> final(ctx).escrow_invariant(),
{
    ctx.delist_nft()
}

} // verus!
