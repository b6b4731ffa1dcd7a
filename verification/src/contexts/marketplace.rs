//! Setting the marketplace up, pausing and closing it, and listing an asset
//! for sale.

use vstd::prelude::*;
use crate::accounts::{Account, Address, Clock, EscrowVault, Mint, TokenAccount, Wallet};
use crate::errors::MarketplaceError;
use crate::pda::{
    bump_of, derived_view, derives_to, listing_address, listing_seeds, marketplace_address,
    marketplace_seeds, program_address, PROGRAM_ID,
};
use crate::state::{
    escrow_matches_listing, listing_is_active, ListingAccount, MarketplaceConfig,
    MAX_FEE_BASIS_POINTS,
};

verus! {

/// The accounts of listing an asset for sale.
#[derive(Clone, Copy, Debug, PartialEq)]
pub struct ListNFT {
    /// Who lists: the holder of the asset, who becomes the seller.
    pub owner: Wallet,
    /// The place of the listing, vacant until the asset is listed.
    pub listing_account: Account<ListingAccount>,
    pub nft_mint: Mint,
    /// The owner's custody account, which holds the asset before.
    pub nft_token: Account<TokenAccount>,
    /// The custody account that holds the asset while it is listed.
    pub escrow_token_account: EscrowVault,
    pub marketplace_config: MarketplaceConfig,
    pub clock: Clock,
}

impl ListNFT {
    /// The listing is active exactly when its escrow holds one unit.
    pub open spec fn escrow_invariant(&self) -> bool {
        escrow_matches_listing(self.listing_account, self.escrow_token_account)
    }

    /// The address that the ledger derives for the listing of this asset.
    pub open spec fn derived_address(&self) -> Option<(Seq<u8>, u8)> {
        program_address(listing_seeds(self.nft_mint.key@), PROGRAM_ID@)
    }

    /// The reason for which the asset cannot be listed at `price` for
    /// `duration` seconds, given the address derived for its listing; `None`
    /// where it can. The reasons are tried in this order.
    pub open spec fn listing_error(
        &self,
        price: u64,
        duration: i64,
        derived: Option<(Seq<u8>, u8)>,
    ) -> Option<MarketplaceError> {
        let held = self.nft_token.data;
        let escrow = self.escrow_token_account;
        if self.marketplace_config.is_paused {
            Some(MarketplaceError::MarketplacePaused)
        } else if self.listing_account.data is Some {
            Some(MarketplaceError::AccountAlreadyInitialized)
        } else if !derives_to(derived, self.listing_account.key@) {
            Some(MarketplaceError::InvalidDerivedAddress)
        } else if self.nft_mint.supply != 1 {
            Some(MarketplaceError::InvalidNFTSupply)
        } else if held is None {
            Some(MarketplaceError::AccountNotInitialized)
        } else if held->0.mint != self.nft_mint.key || held->0.owner != self.owner.key {
            Some(MarketplaceError::InvalidOwner)
        } else if held->0.amount != 1 {
            Some(MarketplaceError::InvalidTokenAmount)
        } else if escrow.key == self.nft_token.key {
            Some(MarketplaceError::InvalidEscrowAccount)
        } else if escrow.data is Some && (escrow.data->0.mint != self.nft_mint.key
            || escrow.data->0.owner != self.listing_account.key || escrow.data->0.amount != 0) {
            Some(MarketplaceError::InvalidEscrowAccount)
        } else if price == 0 {
            Some(MarketplaceError::InvalidPrice)
        } else if duration <= 0 {
            Some(MarketplaceError::InvalidDuration)
        } else if self.clock.unix_timestamp + duration > i64::MAX {
            Some(MarketplaceError::ArithmeticOverflow)
        } else {
            None
        }
    }

    /// The accounts after the asset is listed: the asset in escrow on behalf
    /// of the listing, and a new active listing that runs from now for
    /// `duration` seconds.
    pub open spec fn listed(&self, price: u64, duration: i64, bump: u8) -> ListNFT {
        ListNFT {
            owner: self.owner,
            listing_account: self.listing_account.holding(
                ListingAccount {
                    seller: self.owner.key,
                    nft_mint: self.nft_mint.key,
                    price,
                    token_account: self.nft_token.key,
                    escrow_token_account: self.escrow_token_account.key,
                    created_at: self.clock.unix_timestamp,
                    expires_at: Some((self.clock.unix_timestamp + duration) as i64),
                    is_active: true,
                    bump,
                },
            ),
            nft_mint: self.nft_mint,
            nft_token: self.nft_token.holding(
                TokenAccount { mint: self.nft_mint.key, owner: self.owner.key, amount: 0 },
            ),
            escrow_token_account: self.escrow_token_account.holding(
                TokenAccount {
                    mint: self.nft_mint.key,
                    owner: self.listing_account.key,
                    amount: 1,
                },
            ),
            marketplace_config: self.marketplace_config,
            clock: self.clock,
        }
    }

    /// Lists the asset at `price` for `duration` seconds, at the address
    /// `derived` that was derived for its listing. Refused for the reason
    /// that `listing_error` gives, and then nothing has changed.
    pub fn list_at(&mut self, price: u64, duration: i64, derived: Option<(Address, u8)>) -> (r: Result<
        (),
        MarketplaceError,
    >)
        ensures
            match old(self).listing_error(price, duration, derived_view(derived)) {
                Some(e) => r == Err::<(), MarketplaceError>(e) && *final(self) == *old(self),
                None => r is Ok && *final(self) == old(self).listed(
                    price,
                    duration,
                    bump_of(derived_view(derived)),
                ),
            },
            old(self).marketplace_config.is_paused ==> r == Err::<(), MarketplaceError>(
                MarketplaceError::MarketplacePaused,
            ),
            r is Err ==> *final(self) == *old(self),
            r is Ok ==> final(self).escrow_invariant() && listing_is_active(
                final(self).listing_account,
            ) && !listing_is_active(old(self).listing_account)
                && final(self).listing_account.data->0.wf(),
            old(self).escrow_invariant() ==> final(self).escrow_invariant(),
    {
        if self.marketplace_config.is_paused {
            return Err(MarketplaceError::MarketplacePaused);
        }
        if self.listing_account.is_initialized() {
            return Err(MarketplaceError::AccountAlreadyInitialized);
        }
        let bump = match derived {
            Some((address, bump)) => {
                proof {
                    Address::lemma_view_injective(address, self.listing_account.key);
                }
                if address != self.listing_account.key {
                    return Err(MarketplaceError::InvalidDerivedAddress);
                }
                bump
            },
            None => {
                return Err(MarketplaceError::InvalidDerivedAddress);
            },
        };
        if self.nft_mint.supply != 1 {
            return Err(MarketplaceError::InvalidNFTSupply);
        }
        let held = match self.nft_token.data {
            Some(held) => held,
            None => {
                return Err(MarketplaceError::AccountNotInitialized);
            },
        };
        if held.mint != self.nft_mint.key || held.owner != self.owner.key {
            return Err(MarketplaceError::InvalidOwner);
        }
        if held.amount != 1 {
            return Err(MarketplaceError::InvalidTokenAmount);
        }
        if self.escrow_token_account.key == self.nft_token.key {
            return Err(MarketplaceError::InvalidEscrowAccount);
        }
        match self.escrow_token_account.data {
            Some(escrow) => {
                if escrow.mint != self.nft_mint.key || escrow.owner != self.listing_account.key
                    || escrow.amount != 0 {
                    return Err(MarketplaceError::InvalidEscrowAccount);
                }
            },
            None => {},
        }
        if price == 0 {
            return Err(MarketplaceError::InvalidPrice);
        }
        if duration <= 0 {
            return Err(MarketplaceError::InvalidDuration);
        }
        let now = self.clock.unix_timestamp;
        let expires_at = match now.checked_add(duration) {
            Some(expires_at) => expires_at,
            None => {
                return Err(MarketplaceError::ArithmeticOverflow);
            },
        };
        self.nft_token.data = Some(
            TokenAccount { mint: self.nft_mint.key, owner: self.owner.key, amount: 0 },
        );
        self.escrow_token_account.data = Some(
            TokenAccount { mint: self.nft_mint.key, owner: self.listing_account.key, amount: 1 },
        );
        self.listing_account.data = Some(
            ListingAccount {
                seller: self.owner.key,
                nft_mint: self.nft_mint.key,
                price,
                token_account: self.nft_token.key,
                escrow_token_account: self.escrow_token_account.key,
                created_at: now,
                expires_at: Some(expires_at),
                is_active: true,
                bump,
            },
        );
        Ok(())
    }

    /// Lists the asset at `price` for `duration` seconds: the asset moves
    /// from the owner's custody account into escrow, and an active listing is
    /// created at the address derived for the asset. Refused for the reason
    /// that `listing_error` gives, and then nothing has changed.
    pub fn list_nft(&mut self, price: u64, duration: i64) -> (r: Result<(), MarketplaceError>)
        ensures
            match old(self).listing_error(price, duration, old(self).derived_address()) {
                Some(e) => r == Err::<(), MarketplaceError>(e) && *final(self) == *old(self),
                None => r is Ok && *final(self) == old(self).listed(
                    price,
                    duration,
                    bump_of(old(self).derived_address()),
                ),
            },
            old(self).marketplace_config.is_paused ==> r == Err::<(), MarketplaceError>(
                MarketplaceError::MarketplacePaused,
            ),
            r is Err ==> *final(self) == *old(self),
            r is Ok ==> final(self).escrow_invariant() && listing_is_active(
                final(self).listing_account,
            ),
            old(self).escrow_invariant() ==> final(self).escrow_invariant(),
    {
        let derived = listing_address(&self.nft_mint.key);
        self.list_at(price, duration, derived)
    }
}

/// The accounts of setting the marketplace up.
#[derive(Clone, Copy, Debug, PartialEq)]
pub struct InitializeMarketplace {
    /// Who sets the marketplace up and becomes its authority.
    pub authority: Wallet,
    /// The place of the configuration, vacant until the marketplace is set up.
    pub config: Account<MarketplaceConfig>,
    /// The wallet that will receive the fees.
    pub treasury_wallet: Wallet,
}

impl InitializeMarketplace {
    /// The address that the ledger derives for the configuration.
    pub open spec fn derived_address() -> Option<(Seq<u8>, u8)> {
        program_address(marketplace_seeds(), PROGRAM_ID@)
    }

    /// The reason for which the marketplace cannot be set up with the fee
    /// rate `fee_percentage`, given the address derived for its
    /// configuration; `None` where it can.
    pub open spec fn initialize_error(&self, fee_percentage: u16, derived: Option<(Seq<u8>, u8)>)
        -> Option<MarketplaceError> {
        if fee_percentage > MAX_FEE_BASIS_POINTS {
            Some(MarketplaceError::InvalidFeePercentage)
        } else if self.config.data is Some {
            Some(MarketplaceError::AccountAlreadyInitialized)
        } else if !derives_to(derived, self.config.key@) {
            Some(MarketplaceError::InvalidDerivedAddress)
        } else {
            None
        }
    }

    /// The accounts after the marketplace is set up: the configuration names
    /// the authority and the treasury, and the marketplace is not paused.
    pub open spec fn initialized(&self, fee_percentage: u16, bump: u8) -> InitializeMarketplace {
        InitializeMarketplace {
            authority: self.authority,
            config: self.config.holding(
                MarketplaceConfig {
                    authority: self.authority.key,
                    treasury_wallet: self.treasury_wallet.key,
                    fee_percentage,
                    is_paused: false,
                    bump,
                },
            ),
            treasury_wallet: self.treasury_wallet,
        }
    }

    /// Sets the marketplace up with the fee rate `fee_percentage`, at the
    /// address `derived` that was derived for its configuration.
    pub fn initialize_at(&mut self, fee_percentage: u16, derived: Option<(Address, u8)>) -> (r: Result<
        (),
        MarketplaceError,
    >)
        ensures
            match old(self).initialize_error(fee_percentage, derived_view(derived)) {
                Some(e) => r == Err::<(), MarketplaceError>(e) && *final(self) == *old(self),
                None => r is Ok && *final(self) == old(self).initialized(
                    fee_percentage,
                    bump_of(derived_view(derived)),
                ),
            },
            fee_percentage > 10000 ==> r == Err::<(), MarketplaceError>(
                MarketplaceError::InvalidFeePercentage,
            ),
            r is Ok ==> final(self).config.data is Some && final(self).config.data->0.wf()
                && !final(self).config.data->0.is_paused,
    {
        if fee_percentage > MAX_FEE_BASIS_POINTS {
            return Err(MarketplaceError::InvalidFeePercentage);
        }
        if self.config.is_initialized() {
            return Err(MarketplaceError::AccountAlreadyInitialized);
        }
        let bump = match derived {
            Some((address, bump)) => {
                proof {
                    Address::lemma_view_injective(address, self.config.key);
                }
                if address != self.config.key {
                    return Err(MarketplaceError::InvalidDerivedAddress);
                }
                bump
            },
            None => {
                return Err(MarketplaceError::InvalidDerivedAddress);
            },
        };
        self.config.data = Some(
            MarketplaceConfig {
                authority: self.authority.key,
                treasury_wallet: self.treasury_wallet.key,
                fee_percentage,
                is_paused: false,
                bump,
            },
        );
        Ok(())
    }

    /// Sets the marketplace up with the fee rate `fee_percentage`, in basis
    /// points: the caller becomes the authority, and the marketplace starts
    /// unpaused. A rate above 10000 is refused.
    pub fn initialize(&mut self, fee_percentage: u16) -> (r: Result<(), MarketplaceError>)
        ensures
            match old(self).initialize_error(fee_percentage, Self::derived_address()) {
                Some(e) => r == Err::<(), MarketplaceError>(e) && *final(self) == *old(self),
                None => r is Ok && *final(self) == old(self).initialized(
                    fee_percentage,
                    bump_of(Self::derived_address()),
                ),
            },
            fee_percentage > 10000 ==> r == Err::<(), MarketplaceError>(
                MarketplaceError::InvalidFeePercentage,
            ),
            r is Ok ==> final(self).config.data is Some && final(self).config.data->0.wf()
                && !final(self).config.data->0.is_paused,
    {
        let derived = marketplace_address();
        self.initialize_at(fee_percentage, derived)
    }
}

/// The accounts of closing the marketplace.
#[derive(Clone, Copy, Debug, PartialEq)]
pub struct CloseMarketplace {
    /// Who closes the marketplace and reclaims the storage.
    pub authority: Wallet,
    pub config: Account<MarketplaceConfig>,
}

impl CloseMarketplace {
    /// The reason for which the marketplace cannot be closed; `None` where
    /// it can.
    pub open spec fn close_error(&self) -> Option<MarketplaceError> {
        if self.config.data is None {
            Some(MarketplaceError::AccountNotInitialized)
        } else if self.config.data->0.authority != self.authority.key {
            Some(MarketplaceError::InvalidMarketplaceAuthority)
        } else if self.authority.lamports + self.config.lamports > u64::MAX {
            Some(MarketplaceError::ArithmeticOverflow)
        } else {
            None
        }
    }

    /// The accounts after the marketplace is closed: no configuration, its
    /// deposit with the authority.
    pub open spec fn closed(&self) -> CloseMarketplace {
        CloseMarketplace {
            authority: Wallet {
                key: self.authority.key,
                lamports: (self.authority.lamports + self.config.lamports) as u64,
            },
            config: self.config.closed(),
        }
    }
}

/// Closes the marketplace: the configuration is destroyed and its deposit
/// goes to the authority, who alone may do this. Whether listings still refer
/// to the configuration is not looked at.
pub fn close_marketplace(ctx: &mut CloseMarketplace) -> (r: Result<(), MarketplaceError>)
    ensures
        match old(ctx).close_error() {
            Some(e) => r == Err::<(), MarketplaceError>(e) && *final(ctx) == *old(ctx),
            None => r is Ok && *final(ctx) == old(ctx).closed(),
        },
{
    let config = match ctx.config.data {
        Some(config) => config,
        None => {
            return Err(MarketplaceError::AccountNotInitialized);
        },
    };
    if config.authority != ctx.authority.key {
        return Err(MarketplaceError::InvalidMarketplaceAuthority);
    }
    let balance = match ctx.authority.lamports.checked_add(ctx.config.lamports) {
        Some(balance) => balance,
        None => {
            return Err(MarketplaceError::ArithmeticOverflow);
        },
    };
    ctx.config.close();
    ctx.authority.lamports = balance;
    Ok(())
}

/// The accounts of pausing the marketplace and of taking the pause back.
#[derive(Clone, Copy, Debug, PartialEq)]
pub struct PauseMarketplace {
    pub config: MarketplaceConfig,
    /// Who asks: only the authority of the marketplace may.
    pub authority: Wallet,
}

impl PauseMarketplace {
    /// The reason for which the caller may neither pause nor take a pause
    /// back: the caller is not the authority. `None` where the caller is.
    pub open spec fn pause_error(&self) -> Option<MarketplaceError> {
        if self.config.authority != self.authority.key {
            Some(MarketplaceError::InvalidMarketplaceAuthority)
        } else {
            None
        }
    }

    /// The accounts with the pause flag set to `paused`, all else as it is.
    pub open spec fn with_pause(&self, paused: bool) -> PauseMarketplace {
        PauseMarketplace {
            config: MarketplaceConfig {
                authority: self.config.authority,
                treasury_wallet: self.config.treasury_wallet,
                fee_percentage: self.config.fee_percentage,
                is_paused: paused,
                bump: self.config.bump,
            },
            authority: self.authority,
        }
    }

    /// Pauses the marketplace: until the pause is taken back, no asset can
    /// be listed or bought. Only the authority may pause; nothing but the
    /// pause flag changes.
    pub fn pause(&mut self) -> (r: Result<(), MarketplaceError>)
        ensures
            match old(self).pause_error() {
                Some(e) => r == Err::<(), MarketplaceError>(e) && *final(self) == *old(self),
                None => r is Ok && *final(self) == old(self).with_pause(true),
            },
            old(self).config.wf() ==> final(self).config.wf(),
    {
        if self.config.authority != self.authority.key {
            return Err(MarketplaceError::InvalidMarketplaceAuthority);
        }
        self.config.is_paused = true;
        Ok(())
    }

    /// Takes the pause back. Only the authority may; nothing but the pause
    /// flag changes.
    pub fn unpause(&mut self) -> (r: Result<(), MarketplaceError>)
        ensures
            match old(self).pause_error() {
                Some(e) => r == Err::<(), MarketplaceError>(e) && *final(self) == *old(self),
                None => r is Ok && *final(self) == old(self).with_pause(false),
            },
            old(self).config.wf() ==> final(self).config.wf(),
    {
        if self.config.authority != self.authority.key {
            return Err(MarketplaceError::InvalidMarketplaceAuthority);
        }
        self.config.is_paused = false;
        Ok(())
    }
}

} // verus!
