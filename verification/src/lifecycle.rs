//! What holds across operations. The marketplace keeps three things of an
//! asset: its configuration, the place of the asset's listing, and the escrow.
//! An operation joins them with the accounts that its caller brings. This
//! file follows these three through any run of operations and states what is
//! true of them all along.

use vstd::prelude::*;
use crate::accounts::{
    units_held, Account, Address, Clock, EscrowVault, Mint, TokenAccount, Wallet,
};
use crate::contexts::buy_nft::BuyNft;
use crate::contexts::delist_nft::DelistNft;
use crate::contexts::marketplace::{ListNFT, PauseMarketplace};
use crate::contexts::update_listing::UpdateListingMint;
use crate::errors::MarketplaceError;
use crate::pda::bump_of;
use crate::settlement::{lemma_share_bounds, share_of, SettlementPolicy};
use crate::state::{escrow_matches_listing, listing_is_active, ListingAccount, MarketplaceConfig};

verus! {

/// What the marketplace keeps of one asset.
pub struct Market {
    pub config: MarketplaceConfig,
    pub listing_account: Account<ListingAccount>,
    pub escrow_token_account: EscrowVault,
}

/// One operation on a market, with the accounts and arguments that its
/// caller brings.
pub enum Step {
    List {
        owner: Wallet,
        nft_mint: Mint,
        nft_token: Account<TokenAccount>,
        clock: Clock,
        price: u64,
        duration: i64,
        derived: Option<(Seq<u8>, u8)>,
    },
    Update { seller: Wallet, clock: Clock, price: u64, duration: i64 },
    Delist { owner: Wallet, owner_token_account: Account<TokenAccount> },
    Buy {
        buyer: Wallet,
        seller: Wallet,
        buyer_token_account: Account<TokenAccount>,
        treasury_wallet: Wallet,
        creator_wallet: Wallet,
        policy: SettlementPolicy,
    },
    Pause { authority: Wallet },
    Unpause { authority: Wallet },
}

impl Market {
    /// The escrow invariant: the listing is active exactly when the escrow
    /// holds one unit of the asset.
    pub open spec fn escrow_invariant(self) -> bool {
        escrow_matches_listing(self.listing_account, self.escrow_token_account)
    }

    /// The market with its pause flag set to `paused`.
    pub open spec fn with_pause(self, paused: bool) -> Market {
        Market {
            config: MarketplaceConfig {
                authority: self.config.authority,
                treasury_wallet: self.config.treasury_wallet,
                fee_percentage: self.config.fee_percentage,
                is_paused: paused,
                bump: self.config.bump,
            },
            listing_account: self.listing_account,
            escrow_token_account: self.escrow_token_account,
        }
    }

    /// The market with its listing and escrow replaced.
    pub open spec fn holding(
        self,
        listing_account: Account<ListingAccount>,
        escrow_token_account: EscrowVault,
    ) -> Market {
        Market { config: self.config, listing_account, escrow_token_account }
    }

    /// The accounts of listing the asset on this market.
    pub open spec fn listing(
        self,
        owner: Wallet,
        nft_mint: Mint,
        nft_token: Account<TokenAccount>,
        clock: Clock,
    ) -> ListNFT {
        ListNFT {
            owner,
            listing_account: self.listing_account,
            nft_mint,
            nft_token,
            escrow_token_account: self.escrow_token_account,
            marketplace_config: self.config,
            clock,
        }
    }

    /// The accounts of changing the listing of this market.
    pub open spec fn change(self, seller: Wallet, clock: Clock) -> UpdateListingMint {
        UpdateListingMint { listing_account: self.listing_account, seller, clock }
    }

    /// The accounts of taking the listing of this market back.
    pub open spec fn delisting(
        self,
        owner: Wallet,
        owner_token_account: Account<TokenAccount>,
    ) -> DelistNft {
        DelistNft {
            owner,
            listing_account: self.listing_account,
            owner_token_account,
            escrow_token_account: self.escrow_token_account,
        }
    }

    /// The accounts of buying what is listed on this market.
    pub open spec fn purchase(
        self,
        buyer: Wallet,
        seller: Wallet,
        buyer_token_account: Account<TokenAccount>,
        treasury_wallet: Wallet,
        creator_wallet: Wallet,
    ) -> BuyNft {
        BuyNft {
            buyer,
            seller,
            config: self.config,
            listing_account: self.listing_account,
            escrow_token_account: self.escrow_token_account,
            buyer_token_account,
            treasury_wallet,
            creator_wallet,
        }
    }

    /// The accounts of pausing this market or taking the pause back.
    pub open spec fn gate(self, authority: Wallet) -> PauseMarketplace {
        PauseMarketplace { config: self.config, authority }
    }

    /// The reason for which the operation `step` is refused on this market;
    /// `None` where it goes through.
    pub open spec fn refusal(self, step: Step) -> Option<MarketplaceError> {
        match step {
            Step::List { owner, nft_mint, nft_token, clock, price, duration, derived } => {
                self.listing(owner, nft_mint, nft_token, clock).listing_error(
                    price,
                    duration,
                    derived,
                )
            },
            Step::Update { seller, clock, price, duration } => {
                self.change(seller, clock).update_error(price, duration)
            },
            Step::Delist { owner, owner_token_account } => {
                self.delisting(owner, owner_token_account).delist_error()
            },
            Step::Buy {
                buyer,
                seller,
                buyer_token_account,
                treasury_wallet,
                creator_wallet,
                policy,
            } => {
                self.purchase(
                    buyer,
                    seller,
                    buyer_token_account,
                    treasury_wallet,
                    creator_wallet,
                ).purchase_error(policy)
            },
            Step::Pause { authority } | Step::Unpause { authority } => {
                self.gate(authority).pause_error()
            },
        }
    }

    /// The market after the operation `step`: as the operation leaves it
    /// where it goes through, and as it was where it is refused.
    pub open spec fn next(self, step: Step) -> Market {
        if self.refusal(step) is Some {
            self
        } else {
            match step {
                Step::List { owner, nft_mint, nft_token, clock, price, duration, derived } => {
                    let after = self.listing(owner, nft_mint, nft_token, clock).listed(
                        price,
                        duration,
                        bump_of(derived),
                    );
                    self.holding(after.listing_account, after.escrow_token_account)
                },
                Step::Update { seller, clock, price, duration } => {
                    let after = self.change(seller, clock).updated(price, duration);
                    self.holding(after.listing_account, self.escrow_token_account)
                },
                Step::Delist { owner, owner_token_account } => {
                    let after = self.delisting(owner, owner_token_account).delisted();
                    self.holding(after.listing_account, after.escrow_token_account)
                },
                Step::Buy {
                    buyer,
                    seller,
                    buyer_token_account,
                    treasury_wallet,
                    creator_wallet,
                    policy,
                } => {
                    let before = self.purchase(
                        buyer,
                        seller,
                        buyer_token_account,
                        treasury_wallet,
                        creator_wallet,
                    );
                    let after = before.purchased(before.settlement(policy)->0);
                    self.holding(after.listing_account, after.escrow_token_account)
                },
                Step::Pause { authority } => Market {
                    config: self.gate(authority).with_pause(true).config,
                    listing_account: self.listing_account,
                    escrow_token_account: self.escrow_token_account,
                },
                Step::Unpause { authority } => Market {
                    config: self.gate(authority).with_pause(false).config,
                    listing_account: self.listing_account,
                    escrow_token_account: self.escrow_token_account,
                },
            }
        }
    }

    /// The market after the operations of `steps`, one after the other.
    pub open spec fn run(self, steps: Seq<Step>) -> Market
        decreases steps.len(),
    {
        if steps.len() == 0 {
            self
        } else {
            self.run(steps.drop_last()).next(steps.last())
        }
    }
}

/// A market on which nothing is listed and whose escrow holds nothing keeps
/// the escrow invariant.
pub proof fn lemma_unlisted_market_keeps_invariant(market: Market)
    requires
        market.listing_account.data is None,
        units_held(market.escrow_token_account) == 0,
    ensures
        market.escrow_invariant(),
{
}

/// The escrow invariant holds at every boundary: an operation that starts
/// where the listing is active exactly when the escrow holds one unit ends
/// there too, whether it goes through or is refused. A listing that goes
/// through establishes the invariant by itself.
pub proof fn lemma_step_keeps_invariant(market: Market, step: Step)
    ensures
        market.escrow_invariant() ==> market.next(step).escrow_invariant(),
        step is List && market.refusal(step) is None ==> market.next(step).escrow_invariant(),
{
}

/// The escrow invariant holds after any run of operations that starts where
/// it holds.
pub proof fn lemma_run_keeps_invariant(market: Market, steps: Seq<Step>)
    requires
        market.escrow_invariant(),
    ensures
        market.run(steps).escrow_invariant(),
    decreases steps.len(),
{
    if steps.len() > 0 {
        lemma_run_keeps_invariant(market, steps.drop_last());
        lemma_step_keeps_invariant(market.run(steps.drop_last()), steps.last());
    }
}

/// The pause gate: while the market is paused, listing and buying are
/// refused as paused, whatever else the accounts and arguments hold.
pub proof fn lemma_pause_gate(market: Market, step: Step)
    requires
        market.config.is_paused,
        step is List || step is Buy,
    ensures
        market.refusal(step) == Some(MarketplaceError::MarketplacePaused),
        market.next(step) == market,
{
}

/// A pause does not stand in the way of the seller: changing a listing and
/// taking it back are refused or go through alike on a paused and on an
/// unpaused market, and leave the listing and the escrow alike.
pub proof fn lemma_pause_spares_update_and_delist(market: Market, step: Step, paused: bool)
    requires
        step is Update || step is Delist,
    ensures
        market.with_pause(paused).refusal(step) == market.refusal(step),
        market.with_pause(paused).next(step) == market.next(step).with_pause(paused),
{
}

/// Pausing and taking the pause back change the pause flag and nothing else:
/// not the listing, not the escrow, not the rest of the configuration.
pub proof fn lemma_pause_changes_the_flag_alone(market: Market, authority: Wallet)
    ensures
        market.next(Step::Pause { authority }) == if authority.key == market.config.authority {
            market.with_pause(true)
        } else {
            market
        },
        market.next(Step::Unpause { authority }) == if authority.key == market.config.authority {
            market.with_pause(false)
        } else {
            market
        },
{
}

/// No self-trade: while the marketplace is not paused, a purchase in which
/// buyer and seller are the same identity is refused as such, whatever the
/// balances and the state of the listing.
pub proof fn lemma_no_self_trade(purchase: BuyNft, policy: SettlementPolicy)
    requires
        !purchase.config.is_paused,
        purchase.buyer.key == purchase.seller.key,
    ensures
        purchase.purchase_error(policy) == Some(MarketplaceError::CannotBuyOwnNFT),
{
}

/// The seller of a listing cannot buy it, whichever wallet is named as the
/// seller's: the purchase is refused as a self-trade, or for a seller who is
/// not the listing's, unless the pause gate has refused it already.
pub proof fn lemma_seller_cannot_buy(purchase: BuyNft, policy: SettlementPolicy)
    requires
        purchase.listing_account.data is Some,
        purchase.buyer.key == purchase.listing_account.data->0.seller,
    ensures
        purchase.purchase_error(policy) == Some(MarketplaceError::MarketplacePaused)
            || purchase.purchase_error(policy) == Some(MarketplaceError::CannotBuyOwnNFT)
            || purchase.purchase_error(policy) == Some(MarketplaceError::InvalidSeller),
{
}

/// Under a fee rate of at most 10000 basis points, the fee of a purchase
/// that can be settled is the rounded-down share of the price and at most
/// the price, and the buyer pays what the others receive together.
pub proof fn lemma_purchase_fee_bounds(purchase: BuyNft, policy: SettlementPolicy)
    requires
        purchase.config.wf(),
        purchase.settlement(policy) is Some,
    ensures
        ({
            let s = purchase.settlement(policy)->0;
            let price = purchase.listing_account.data->0.price;
            &&& s.fee_amount == share_of(price, purchase.config.fee_percentage)
            &&& 0 <= s.fee_amount <= price
            &&& s.total_amount == s.seller_amount + s.fee_amount + s.royalty_amount
        }),
{
    lemma_share_bounds(purchase.listing_account.data->0.price, purchase.config.fee_percentage);
}

/// A purchase that goes through ends the listing: the listing and its escrow
/// are closed, the buyer holds one unit more and has paid the total, less
/// what came back to the buyer in another role, and the seller has received
/// at least the seller's amount and the deposits of the two closed accounts.
pub proof fn lemma_purchase_effect(purchase: BuyNft, policy: SettlementPolicy)
    requires
        purchase.purchase_error(policy) is None,
    ensures
        ({
            let s = purchase.settlement(policy)->0;
            let after = purchase.purchased(s);
            &&& purchase.escrow_invariant()
            &&& after.escrow_invariant()
            &&& after.listing_account.data is None
            &&& after.escrow_token_account.data is None
            &&& units_held(after.buyer_token_account) == units_held(purchase.buyer_token_account)
                + 1
            &&& after.buyer.lamports + s.total_amount == purchase.buyer.lamports + purchase.credit(
                purchase.buyer.key,
                s,
            )
            &&& after.seller.lamports == purchase.seller.lamports + purchase.credit(
                purchase.seller.key,
                s,
            )
            &&& purchase.credit(purchase.seller.key, s) >= s.seller_amount
                + purchase.listing_account.lamports + purchase.escrow_token_account.lamports
        }),
{
}

/// When a listing was created and when it expires play no part in a
/// purchase: two purchases whose accounts differ in these two times alone
/// are refused for the same reason or both go through, with the same amounts.
pub proof fn lemma_purchase_ignores_expiry(a: BuyNft, b: BuyNft, policy: SettlementPolicy)
    requires
        a.listing_account.data is Some,
        b.listing_account.data is Some,
        b == (BuyNft {
            listing_account: a.listing_account.holding(
                ListingAccount {
                    created_at: b.listing_account.data->0.created_at,
                    expires_at: b.listing_account.data->0.expires_at,
                    ..a.listing_account.data->0
                },
            ),
            ..a
        }),
    ensures
        a.purchase_error(policy) == b.purchase_error(policy),
        a.settlement(policy) == b.settlement(policy),
{
}

/// Listing and taking back: on the market that a listing leaves, the seller
/// can take the listing back as long as the seller's wallet can take the two
/// deposits, and then the seller's custody account holds the asset as before
/// the listing, and the listing and its escrow are closed.
pub proof fn lemma_list_then_delist(
    market: Market,
    owner: Wallet,
    nft_mint: Mint,
    nft_token: Account<TokenAccount>,
    clock: Clock,
    price: u64,
    duration: i64,
    derived: Option<(Seq<u8>, u8)>,
)
    requires
        market.listing(owner, nft_mint, nft_token, clock).listing_error(price, duration, derived)
            is None,
        owner.lamports + market.listing_account.lamports + market.escrow_token_account.lamports
            <= u64::MAX,
    ensures
        ({
            let list = Step::List { owner, nft_mint, nft_token, clock, price, duration, derived };
            let listed = market.listing(owner, nft_mint, nft_token, clock).listed(
                price,
                duration,
                bump_of(derived),
            );
            let back = market.next(list).delisting(listed.owner, listed.nft_token);
            &&& market.next(list).escrow_invariant()
            &&& listing_is_active(market.next(list).listing_account)
            &&& back.delist_error() is None
            &&& back.delisted().owner_token_account == nft_token
            &&& back.delisted().listing_account.data is None
            &&& back.delisted().escrow_token_account.data is None
        }),
{
}

/// Listing and buying: on the market that a listing leaves, a purchase
/// passes every check of the accounts where the buyer is not the seller, the
/// buyer's custody account is the buyer's own, for this asset and not the
/// escrow, and the fee goes to the treasury of the marketplace. Such a
/// purchase is refused only for an amount out of range or a buyer who cannot
/// pay.
pub proof fn lemma_list_then_buy(
    market: Market,
    owner: Wallet,
    nft_mint: Mint,
    nft_token: Account<TokenAccount>,
    clock: Clock,
    price: u64,
    duration: i64,
    derived: Option<(Seq<u8>, u8)>,
    buyer: Wallet,
    buyer_token_account: Account<TokenAccount>,
    treasury_wallet: Wallet,
    creator_wallet: Wallet,
    policy: SettlementPolicy,
)
    requires
        market.listing(owner, nft_mint, nft_token, clock).listing_error(price, duration, derived)
            is None,
        buyer.key != owner.key,
        buyer_token_account.key != market.escrow_token_account.key,
        buyer_token_account.data is Some,
        buyer_token_account.data->0.mint == nft_mint.key,
        buyer_token_account.data->0.owner == buyer.key,
        treasury_wallet.key == market.config.treasury_wallet,
    ensures
        ({
            let list = Step::List { owner, nft_mint, nft_token, clock, price, duration, derived };
            let purchase = market.next(list).purchase(
                buyer,
                owner,
                buyer_token_account,
                treasury_wallet,
                creator_wallet,
            );
            &&& purchase.account_error() is None
            &&& purchase.purchase_error(policy) is Some ==> purchase.purchase_error(policy) == Some(
                MarketplaceError::ArithmeticOverflow,
            ) || purchase.purchase_error(policy) == Some(MarketplaceError::InsufficientBalance)
        }),
{
}

/// The end of a listing is final: on a market whose listing is closed,
/// changing it and taking it back are refused as not active, and so is
/// buying it once the gates of pause and self-trade are passed. Only a new
/// listing brings the asset back.
pub proof fn lemma_closed_listing_is_final(market: Market, step: Step)
    requires
        market.listing_account.data is None,
    ensures
        step is Update || step is Delist ==> market.refusal(step) == Some(
            MarketplaceError::ListingNotActive,
        ),
        step matches Step::Buy { buyer, seller, .. } ==> market.refusal(step) == Some(
            if market.config.is_paused {
                MarketplaceError::MarketplacePaused
            } else if buyer.key == seller.key {
                MarketplaceError::CannotBuyOwnNFT
            } else {
                MarketplaceError::ListingNotActive
            },
        ),
{
}

/// One asset has one place for its listing: two listings of the same asset
/// that go through at the address derived for it sit at the same address.
pub proof fn lemma_one_address_per_asset(
    a: ListNFT,
    a_price: u64,
    a_duration: i64,
    b: ListNFT,
    b_price: u64,
    b_duration: i64,
)
    requires
        a.nft_mint.key == b.nft_mint.key,
        a.listing_error(a_price, a_duration, a.derived_address()) is None,
        b.listing_error(b_price, b_duration, b.derived_address()) is None,
    ensures
        a.listing_account.key == b.listing_account.key,
{
    Address::lemma_view_injective(a.listing_account.key, b.listing_account.key);
}

/// One asset has one listing at a time: on a market whose listing exists, a
/// listing is refused.
pub proof fn lemma_listed_asset_is_not_listed_again(market: Market, step: Step)
    requires
        market.listing_account.data is Some,
        step is List,
    ensures
        market.refusal(step) == Some(
            if market.config.is_paused {
                MarketplaceError::MarketplacePaused
            } else {
                MarketplaceError::AccountAlreadyInitialized
            },
        ),
        market.next(step) == market,
{
}

} // verus!
