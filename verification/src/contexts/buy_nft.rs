//! Buying a listed asset: the payment is split between seller, treasury and
//! creator, the asset leaves the escrow for the buyer, and the listing and
//! its escrow are closed, all in one step or not at all.

use vstd::prelude::*;
use crate::accounts::{units_held, Account, Address, EscrowVault, TokenAccount, Wallet};
use crate::errors::MarketplaceError;
use crate::settlement::{compute_settlement, settlement_of, Settlement, SettlementPolicy};
use crate::state::{escrow_matches_listing, listing_is_active, ListingAccount, MarketplaceConfig};

verus! {

/// The accounts of a purchase.
#[derive(Clone, Copy, Debug, PartialEq)]
pub struct BuyNft {
    /// Who buys, and what they can spend.
    pub buyer: Wallet,
    /// Who sells: the wallet that is paid and that reclaims the storage.
    pub seller: Wallet,
    pub config: MarketplaceConfig,
    pub listing_account: Account<ListingAccount>,
    /// The custody account that holds the asset on behalf of the listing.
    pub escrow_token_account: EscrowVault,
    /// The buyer's custody account, which receives the asset.
    pub buyer_token_account: Account<TokenAccount>,
    /// The wallet that receives the marketplace fee.
    pub treasury_wallet: Wallet,
    /// The wallet that receives the royalty.
    pub creator_wallet: Wallet,
}

impl BuyNft {
    /// The listing is active exactly when its escrow holds one unit.
    pub open spec fn escrow_invariant(&self) -> bool {
        escrow_matches_listing(self.listing_account, self.escrow_token_account)
    }

    /// The first reason for which the accounts themselves rule the purchase
    /// out, before any amount is looked at; `None` where they are in order.
    pub open spec fn account_error(&self) -> Option<MarketplaceError> {
        let escrow = self.escrow_token_account;
        let receiving = self.buyer_token_account;
        if self.config.is_paused {
            Some(MarketplaceError::MarketplacePaused)
        } else if self.buyer.key == self.seller.key {
            Some(MarketplaceError::CannotBuyOwnNFT)
        } else if self.listing_account.data is None {
            Some(MarketplaceError::ListingNotActive)
        } else {
            let listing = self.listing_account.data->0;
            if listing.seller != self.seller.key {
                Some(MarketplaceError::InvalidSeller)
            } else if !listing.is_active {
                Some(MarketplaceError::ListingNotActive)
            } else if escrow.key != listing.escrow_token_account || escrow.key == receiving.key {
                Some(MarketplaceError::InvalidEscrowAccount)
            } else if escrow.data is None || escrow.data->0.mint != listing.nft_mint
                || escrow.data->0.owner != self.listing_account.key {
                Some(MarketplaceError::InvalidEscrowAccount)
            } else if escrow.data->0.amount != 1 {
                Some(MarketplaceError::InvalidOwner)
            } else if receiving.data is None {
                Some(MarketplaceError::AccountNotInitialized)
            } else if receiving.data->0.mint != listing.nft_mint || receiving.data->0.owner
                != self.buyer.key {
                Some(MarketplaceError::InvalidOwner)
            } else if self.treasury_wallet.key != self.config.treasury_wallet {
                Some(MarketplaceError::InvalidTreasury)
            } else {
                None
            }
        }
    }

    /// The amounts of the purchase under `policy`, where the listing exists
    /// and they stay in range.
    pub open spec fn settlement(&self, policy: SettlementPolicy) -> Option<Settlement> {
        match self.listing_account.data {
            Some(listing) => settlement_of(listing.price, self.config.fee_percentage, policy),
            None => None,
        }
    }

    /// What the identity `key` receives in the purchase: the seller the
    /// seller's amount and the deposits of the two closed accounts, the
    /// treasury the fee, the creator the royalty. An identity with several of
    /// these roles receives for each.
    pub open spec fn credit(&self, key: Address, s: Settlement) -> nat {
        let as_seller: nat = if key == self.seller.key {
            (s.seller_amount + self.listing_account.lamports
                + self.escrow_token_account.lamports) as nat
        } else {
            0
        };
        let as_treasury: nat = if key == self.treasury_wallet.key {
            s.fee_amount as nat
        } else {
            0
        };
        let as_creator: nat = if key == self.creator_wallet.key {
            s.royalty_amount as nat
        } else {
            0
        };
        as_seller + as_treasury + as_creator
    }

    /// The buyer's balance after the purchase: the total is paid, and what
    /// the buyer receives in another role comes back.
    pub open spec fn buyer_balance_after(&self, s: Settlement) -> int {
        self.buyer.lamports - s.total_amount + self.credit(self.buyer.key, s)
    }

    /// The balance of one of the receiving wallets after the purchase. A
    /// wallet with the buyer's identity is the buyer's wallet and ends with
    /// the buyer's balance.
    pub open spec fn balance_after(&self, wallet: Wallet, s: Settlement) -> int {
        if wallet.key == self.buyer.key {
            self.buyer_balance_after(s)
        } else {
            wallet.lamports + self.credit(wallet.key, s)
        }
    }

    /// Whether every balance that the purchase raises stays in range.
    pub open spec fn credits_fit(&self, s: Settlement) -> bool {
        &&& self.buyer_balance_after(s) <= u64::MAX
        &&& self.balance_after(self.seller, s) <= u64::MAX
        &&& self.balance_after(self.treasury_wallet, s) <= u64::MAX
        &&& self.balance_after(self.creator_wallet, s) <= u64::MAX
        &&& units_held(self.buyer_token_account) + 1 <= u64::MAX
    }

    /// The reason for which a purchase under `policy` is refused: the first
    /// of the account errors, else an amount out of range, else a buyer who
    /// cannot pay the total, else a transfer that its destination cannot
    /// take. `None` where the purchase goes through.
    pub open spec fn purchase_error(&self, policy: SettlementPolicy) -> Option<MarketplaceError> {
        match self.account_error() {
            Some(e) => Some(e),
            None => match self.settlement(policy) {
                None => Some(MarketplaceError::ArithmeticOverflow),
                Some(s) => if self.buyer.lamports < s.total_amount {
                    Some(MarketplaceError::InsufficientBalance)
                } else if !self.credits_fit(s) {
                    Some(MarketplaceError::ArithmeticOverflow)
                } else {
                    None
                },
            },
        }
    }

    /// The accounts after a purchase with the amounts `s`: every wallet at
    /// its new balance, the asset with the buyer, listing and escrow closed.
    pub open spec fn purchased(&self, s: Settlement) -> BuyNft {
        BuyNft {
            buyer: Wallet { key: self.buyer.key, lamports: self.buyer_balance_after(s) as u64 },
            seller: Wallet {
                key: self.seller.key,
                lamports: self.balance_after(self.seller, s) as u64,
            },
            config: self.config,
            listing_account: self.listing_account.closed(),
            escrow_token_account: self.escrow_token_account.closed(),
            buyer_token_account: self.buyer_token_account.holding(
                TokenAccount {
                    mint: self.buyer_token_account.data->0.mint,
                    owner: self.buyer_token_account.data->0.owner,
                    amount: (self.buyer_token_account.data->0.amount + 1) as u64,
                },
            ),
            treasury_wallet: Wallet {
                key: self.treasury_wallet.key,
                lamports: self.balance_after(self.treasury_wallet, s) as u64,
            },
            creator_wallet: Wallet {
                key: self.creator_wallet.key,
                lamports: self.balance_after(self.creator_wallet, s) as u64,
            },
        }
    }

    /// What the identity `key` receives, computed in 128 bits.
    fn credit_to(&self, key: &Address, s: &Settlement) -> (c: u128)
        ensures
            c == self.credit(*key, *s),
    {
        let mut c: u128 = 0;
        if *key == self.seller.key {
            c = c + s.seller_amount as u128 + self.listing_account.lamports as u128
                + self.escrow_token_account.lamports as u128;
        }
        if *key == self.treasury_wallet.key {
            c = c + s.fee_amount as u128;
        }
        if *key == self.creator_wallet.key {
            c = c + s.royalty_amount as u128;
        }
        c
    }

    /// The amounts that a purchase under `policy` would move, for the caller
    /// to show or to compare with the buyer's balance: the price, the fee,
    /// the royalty, what the seller gets and what the buyer pays in all.
    /// Nothing is checked but that there is a listing and that the amounts
    /// stay in range, and nothing is changed.
    pub fn quote(&self, policy: SettlementPolicy) -> (r: Result<Settlement, MarketplaceError>)
        ensures
            self.listing_account.data is None ==> r == Err::<Settlement, MarketplaceError>(
                MarketplaceError::ListingNotActive,
            ),
            self.listing_account.data is Some ==> match self.settlement(policy) {
                Some(s) => r == Ok::<Settlement, MarketplaceError>(s),
                None => r == Err::<Settlement, MarketplaceError>(
                    MarketplaceError::ArithmeticOverflow,
                ),
            },
    {
        match self.listing_account.data {
            Some(listing) => compute_settlement(listing.price, self.config.fee_percentage, policy),
            None => Err(MarketplaceError::ListingNotActive),
        }
    }

    /// Checks the accounts of the purchase in the order of `account_error`,
    /// and hands out the listing and the buyer's custody where they are in
    /// order.
    fn accounts_in_order(&self) -> (r: Result<(ListingAccount, TokenAccount), MarketplaceError>)
        ensures
            match self.account_error() {
                Some(e) => r == Err::<(ListingAccount, TokenAccount), MarketplaceError>(e),
                None => r == Ok::<(ListingAccount, TokenAccount), MarketplaceError>(
                    (self.listing_account.data->0, self.buyer_token_account.data->0),
                ),
            },
    {
        if self.config.is_paused {
            return Err(MarketplaceError::MarketplacePaused);
        }
        if self.buyer.key == self.seller.key {
            return Err(MarketplaceError::CannotBuyOwnNFT);
        }
        let listing = match self.listing_account.data {
            Some(listing) => listing,
            None => {
                return Err(MarketplaceError::ListingNotActive);
            },
        };
        if listing.seller != self.seller.key {
            return Err(MarketplaceError::InvalidSeller);
        }
        if !listing.is_active {
            return Err(MarketplaceError::ListingNotActive);
        }
        if self.escrow_token_account.key != listing.escrow_token_account
            || self.escrow_token_account.key == self.buyer_token_account.key {
            return Err(MarketplaceError::InvalidEscrowAccount);
        }
        let escrow = match self.escrow_token_account.data {
            Some(escrow) => escrow,
            None => {
                return Err(MarketplaceError::InvalidEscrowAccount);
            },
        };
        if escrow.mint != listing.nft_mint || escrow.owner != self.listing_account.key {
            return Err(MarketplaceError::InvalidEscrowAccount);
        }
        if escrow.amount != 1 {
            return Err(MarketplaceError::InvalidOwner);
        }
        let receiving = match self.buyer_token_account.data {
            Some(receiving) => receiving,
            None => {
                return Err(MarketplaceError::AccountNotInitialized);
            },
        };
        if receiving.mint != listing.nft_mint || receiving.owner != self.buyer.key {
            return Err(MarketplaceError::InvalidOwner);
        }
        if self.treasury_wallet.key != self.config.treasury_wallet {
            return Err(MarketplaceError::InvalidTreasury);
        }
        Ok((listing, receiving))
    }

    /// Checks the accounts of the purchase, in the order of `account_error`,
    /// without looking at any amount and without changing anything.
    pub fn check_accounts(&self) -> (r: Result<(), MarketplaceError>)
        ensures
            match self.account_error() {
                Some(e) => r == Err::<(), MarketplaceError>(e),
                None => r is Ok,
            },
    {
        match self.accounts_in_order() {
            Ok(_) => Ok(()),
            Err(e) => Err(e),
        }
    }

    /// Buys the listed asset under `policy` and returns the amounts that were
    /// paid. The purchase is refused for the reason that `purchase_error`
    /// gives, and then nothing has changed; else the accounts are as
    /// `purchased` says.
    ///
    /// Whether the listing has expired is not looked at: a listing can be
    /// bought for as long as it is active.
    pub fn purchase(&mut self, policy: SettlementPolicy) -> (r: Result<Settlement, MarketplaceError>)
        ensures
            match old(self).purchase_error(policy) {
                Some(e) => r == Err::<Settlement, MarketplaceError>(e) && *final(self) == *old(self),
                None => r == Ok::<Settlement, MarketplaceError>(old(self).settlement(policy)->0)
                    && *final(self) == old(self).purchased(old(self).settlement(policy)->0),
            },
            old(self).config.is_paused ==> r == Err::<Settlement, MarketplaceError>(
                MarketplaceError::MarketplacePaused,
            ),
            !old(self).config.is_paused && old(self).buyer.key == old(self).seller.key ==> r == Err::<
                Settlement,
                MarketplaceError,
            >(MarketplaceError::CannotBuyOwnNFT),
            r is Err ==> *final(self) == *old(self),
            r is Ok ==> old(self).escrow_invariant() && !listing_is_active(final(self).listing_account)
                && units_held(final(self).escrow_token_account) == 0,
            old(self).escrow_invariant() ==> final(self).escrow_invariant(),
    {
        let (listing, receiving) = match self.accounts_in_order() {
            Ok(accounts) => accounts,
            Err(e) => {
                return Err(e);
            },
        };
        let s = match compute_settlement(listing.price, self.config.fee_percentage, policy) {
            Ok(s) => s,
            Err(e) => {
                return Err(e);
            },
        };
        if self.buyer.lamports < s.total_amount {
            return Err(MarketplaceError::InsufficientBalance);
        }
        let buyer_after: u128 = (self.buyer.lamports - s.total_amount) as u128 + self.credit_to(
            &self.buyer.key,
            &s,
        );
        let seller_after: u128 = self.seller.lamports as u128 + self.credit_to(&self.seller.key, &s);
        let treasury_after: u128 = if self.treasury_wallet.key == self.buyer.key {
            buyer_after
        } else {
            self.treasury_wallet.lamports as u128 + self.credit_to(&self.treasury_wallet.key, &s)
        };
        let creator_after: u128 = if self.creator_wallet.key == self.buyer.key {
            buyer_after
        } else {
            self.creator_wallet.lamports as u128 + self.credit_to(&self.creator_wallet.key, &s)
        };
        let limit: u128 = u64::MAX as u128;
        if buyer_after > limit || seller_after > limit || treasury_after > limit || creator_after
            > limit || receiving.amount == u64::MAX {
            return Err(MarketplaceError::ArithmeticOverflow);
        }
        self.buyer.lamports = buyer_after as u64;
        self.seller.lamports = seller_after as u64;
        self.treasury_wallet.lamports = treasury_after as u64;
        self.creator_wallet.lamports = creator_after as u64;
        self.buyer_token_account.data = Some(
            TokenAccount { mint: receiving.mint, owner: receiving.owner, amount: receiving.amount + 1 },
        );
        self.escrow_token_account.close();
        self.listing_account.close();
        Ok(s)
    }

    /// Buys the listed asset with the buyer paying the fee and a royalty of
    /// `royalty_percentage` basis points on top of the price.
    pub fn buy_nft(&mut self, royalty_percentage: u16) -> (r: Result<(), MarketplaceError>)
        ensures
            match old(self).purchase_error(
                SettlementPolicy::BuyerPaysFeeAndRoyalty { royalty_percentage },
            ) {
                Some(e) => r == Err::<(), MarketplaceError>(e) && *final(self) == *old(self),
                None => r is Ok && *final(self) == old(self).purchased(
                    old(self).settlement(
                        SettlementPolicy::BuyerPaysFeeAndRoyalty { royalty_percentage },
                    )->0,
                ),
            },
            old(self).config.is_paused ==> r == Err::<(), MarketplaceError>(
                MarketplaceError::MarketplacePaused,
            ),
            !old(self).config.is_paused && old(self).buyer.key == old(self).seller.key ==> r == Err::<
                (),
                MarketplaceError,
            >(MarketplaceError::CannotBuyOwnNFT),
            r is Err ==> *final(self) == *old(self),
            old(self).escrow_invariant() ==> final(self).escrow_invariant(),
    {
        match self.purchase(SettlementPolicy::BuyerPaysFeeAndRoyalty { royalty_percentage }) {
            Ok(_) => Ok(()),
            Err(e) => Err(e),
        }
    }
}

} // verus!
