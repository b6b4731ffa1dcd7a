//! Changing the price and the term of an active listing.

use vstd::prelude::*;
use crate::accounts::{Account, Clock, Wallet};
use crate::errors::MarketplaceError;
use crate::state::{listing_is_active, ListingAccount};

verus! {

/// The accounts of changing a listing.
#[derive(Clone, Copy, Debug, PartialEq)]
pub struct UpdateListingMint {
    pub listing_account: Account<ListingAccount>,
    /// Who asks: only the seller of the listing may.
    pub seller: Wallet,
    pub clock: Clock,
}

impl UpdateListingMint {
    /// The reason for which the listing cannot be changed to `price` and a
    /// term of `duration` seconds from now; `None` where it can. The reasons
    /// are tried in this order.
    pub open spec fn update_error(&self, price: u64, duration: i64) -> Option<MarketplaceError> {
        if self.listing_account.data is None {
            Some(MarketplaceError::ListingNotActive)
        } else if self.listing_account.data->0.seller != self.seller.key {
            Some(MarketplaceError::InvalidSeller)
        } else if !self.listing_account.data->0.is_active {
            Some(MarketplaceError::ListingNotActive)
        } else if price == 0 {
            Some(MarketplaceError::InvalidPrice)
        } else if duration <= 0 {
            Some(MarketplaceError::InvalidDuration)
        } else if self.clock.unix_timestamp + duration > i64::MAX {
            Some(MarketplaceError::ArithmeticOverflow)
        } else {
            None
        }
    }

    /// The accounts after the change: the listing at the new price, ending
    /// `duration` seconds from now, and as it was in all else.
    pub open spec fn updated(&self, price: u64, duration: i64) -> UpdateListingMint {
        let listing = self.listing_account.data->0;
        UpdateListingMint {
            listing_account: self.listing_account.holding(
                ListingAccount {
                    seller: listing.seller,
                    nft_mint: listing.nft_mint,
                    price,
                    token_account: listing.token_account,
                    escrow_token_account: listing.escrow_token_account,
                    created_at: listing.created_at,
                    expires_at: Some((self.clock.unix_timestamp + duration) as i64),
                    is_active: listing.is_active,
                    bump: listing.bump,
                },
            ),
            seller: self.seller,
            clock: self.clock,
        }
    }

    /// Sets the price of the listing to `price` and its end to `duration`
    /// seconds from now. The escrow is not touched and the listing stays
    /// active. Refused for the reason that `update_error` gives, and then
    /// nothing has changed. A pause of the marketplace does not stand in the
    /// way: no configuration is consulted.
    pub fn update_listing(&mut self, price: u64, duration: i64) -> (r: Result<(), MarketplaceError>)
        ensures
            match old(self).update_error(price, duration) {
                Some(e) => r == Err::<(), MarketplaceError>(e) && *final(self) == *old(self),
                None => r is Ok && *final(self) == old(self).updated(price, duration),
            },
            r is Err ==> *final(self) == *old(self),
            listing_is_active(final(self).listing_account) == listing_is_active(
                old(self).listing_account,
            ),
            r is Ok ==> listing_is_active(final(self).listing_account)
                && final(self).listing_account.data->0.wf(),
    {
        let listing = match self.listing_account.data {
            Some(listing) => listing,
            None => {
                return Err(MarketplaceError::ListingNotActive);
            },
        };
        if listing.seller != self.seller.key {
            return Err(MarketplaceError::InvalidSeller);
        }
        if !listing.is_active {
            return Err(MarketplaceError::ListingNotActive);
        }
        if price == 0 {
            return Err(MarketplaceError::InvalidPrice);
        }
        if duration <= 0 {
            return Err(MarketplaceError::InvalidDuration);
        }
        let expires_at = match self.clock.unix_timestamp.checked_add(duration) {
            Some(expires_at) => expires_at,
            None => {
                return Err(MarketplaceError::ArithmeticOverflow);
            },
        };
        self.listing_account.data = Some(
            ListingAccount {
                seller: listing.seller,
                nft_mint: listing.nft_mint,
                price,
                token_account: listing.token_account,
                escrow_token_account: listing.escrow_token_account,
                created_at: listing.created_at,
                expires_at: Some(expires_at),
                is_active: listing.is_active,
                bump: listing.bump,
            },
        );
        Ok(())
    }
}

} // verus!
