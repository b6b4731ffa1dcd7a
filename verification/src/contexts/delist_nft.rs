//! Taking a listing back: the asset returns from the escrow to the seller,
//! and the listing and its escrow are closed without any payment.

use vstd::prelude::*;
use crate::accounts::{units_held, Account, EscrowVault, TokenAccount, Wallet};
use crate::errors::MarketplaceError;
use crate::state::{escrow_matches_listing, listing_is_active, ListingAccount};

verus! {

/// The accounts of taking a listing back.
#[derive(Clone, Copy, Debug, PartialEq)]
pub struct DelistNft {
    /// Who asks: the seller, who gets the asset and the storage back.
    pub owner: Wallet,
    pub listing_account: Account<ListingAccount>,
    /// The seller's custody account, which receives the asset.
    pub owner_token_account: Account<TokenAccount>,
    /// The custody account that holds the asset on behalf of the listing.
    pub escrow_token_account: EscrowVault,
}

impl DelistNft {
    /// The listing is active exactly when its escrow holds one unit.
    pub open spec fn escrow_invariant(&self) -> bool {
        escrow_matches_listing(self.listing_account, self.escrow_token_account)
    }

    /// The reason for which the listing cannot be taken back; `None` where
    /// it can. The reasons are tried in this order.
    pub open spec fn delist_error(&self) -> Option<MarketplaceError> {
        let escrow = self.escrow_token_account;
        let receiving = self.owner_token_account;
        if self.listing_account.data is None {
            Some(MarketplaceError::ListingNotActive)
        } else {
            let listing = self.listing_account.data->0;
            if self.owner.key != listing.seller {
                Some(MarketplaceError::InvalidSeller)
            } else if !listing.is_active {
                Some(MarketplaceError::ListingNotActive)
            } else if receiving.data is None {
                Some(MarketplaceError::AccountNotInitialized)
            } else if receiving.data->0.mint != listing.nft_mint || receiving.data->0.owner
                != self.owner.key {
                Some(MarketplaceError::InvalidOwner)
            } else if escrow.key != listing.escrow_token_account || escrow.key == receiving.key {
                Some(MarketplaceError::InvalidEscrowAccount)
            } else if escrow.data is None || escrow.data->0.mint != listing.nft_mint
                || escrow.data->0.owner != self.listing_account.key {
                Some(MarketplaceError::InvalidEscrowAccount)
            } else if escrow.data->0.amount != 1 {
                Some(MarketplaceError::InvalidOwner)
            } else if receiving.data->0.amount + 1 > u64::MAX {
                Some(MarketplaceError::ArithmeticOverflow)
            } else if self.owner.lamports + self.listing_account.lamports + escrow.lamports
                > u64::MAX {
                Some(MarketplaceError::ArithmeticOverflow)
            } else {
                None
            }
        }
    }

    /// The accounts after the listing is taken back: the asset with the
    /// seller, listing and escrow closed, their deposits with the seller.
    pub open spec fn delisted(&self) -> DelistNft {
        DelistNft {
            owner: Wallet {
                key: self.owner.key,
                lamports: (self.owner.lamports + self.listing_account.lamports
                    + self.escrow_token_account.lamports) as u64,
            },
            listing_account: self.listing_account.closed(),
            owner_token_account: self.owner_token_account.holding(
                TokenAccount {
                    mint: self.owner_token_account.data->0.mint,
                    owner: self.owner_token_account.data->0.owner,
                    amount: (self.owner_token_account.data->0.amount + 1) as u64,
                },
            ),
            escrow_token_account: self.escrow_token_account.closed(),
        }
    }

    /// Takes the listing back: the escrowed unit returns to the seller's
    /// custody account, and the escrow and the listing are closed, their
    /// storage reclaimed by the seller. Refused for the reason that
    /// `delist_error` gives, and then nothing has changed. A pause of the
    /// marketplace does not stand in the way: no configuration is consulted.
    pub fn delist_nft(&mut self) -> (r: Result<(), MarketplaceError>)
        ensures
            match old(self).delist_error() {
                Some(e) => r == Err::<(), MarketplaceError>(e) && *final(self) == *old(self),
                None => r is Ok && *final(self) == old(self).delisted(),
            },
            r is Err ==> *final(self) == *old(self),
            r is Ok ==> old(self).escrow_invariant() && !listing_is_active(
                final(self).listing_account,
            ) && units_held(final(self).escrow_token_account) == 0,
            old(self).escrow_invariant() ==> final(self).escrow_invariant(),
    {
        let listing = match self.listing_account.data {
            Some(listing) => listing,
            None => {
                return Err(MarketplaceError::ListingNotActive);
            },
        };
        if self.owner.key != listing.seller {
            return Err(MarketplaceError::InvalidSeller);
        }
        if !listing.is_active {
            return Err(MarketplaceError::ListingNotActive);
        }
        let receiving = match self.owner_token_account.data {
            Some(receiving) => receiving,
            None => {
                return Err(MarketplaceError::AccountNotInitialized);
            },
        };
        if receiving.mint != listing.nft_mint || receiving.owner != self.owner.key {
            return Err(MarketplaceError::InvalidOwner);
        }
        if self.escrow_token_account.key != listing.escrow_token_account
            || self.escrow_token_account.key == self.owner_token_account.key {
            return Err(MarketplaceError::InvalidEscrowAccount);
        }
        let escrow = match self.escrow_token_account.data {
            Some(escrow) => escrow,
            None => {
                return Err(MarketplaceError::InvalidEscrowAccount);
            },
        };
        if escrow.mint != listing.nft_mint || escrow.owner != self.listing_account.key {
            return Err(MarketplaceError::InvalidEscrowAccount);
        }
        if escrow.amount != 1 {
            return Err(MarketplaceError::InvalidOwner);
        }
        let amount = match receiving.amount.checked_add(1) {
            Some(amount) => amount,
            None => {
                return Err(MarketplaceError::ArithmeticOverflow);
            },
        };
        let with_listing = match self.owner.lamports.checked_add(self.listing_account.lamports) {
            Some(sum) => sum,
            None => {
                return Err(MarketplaceError::ArithmeticOverflow);
            },
        };
        let balance = match with_listing.checked_add(self.escrow_token_account.lamports) {
            Some(balance) => balance,
            None => {
                return Err(MarketplaceError::ArithmeticOverflow);
            },
        };
        self.owner_token_account.data = Some(
            TokenAccount { mint: receiving.mint, owner: receiving.owner, amount },
        );
        self.escrow_token_account.close();
        self.listing_account.close();
        self.owner.lamports = balance;
        Ok(())
    }
}

} // verus!
