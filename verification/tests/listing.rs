use marketplace_core::accounts::{Account, Address, Clock, Mint, TokenAccount, Wallet};
use marketplace_core::contexts::delist_nft::DelistNft;
use marketplace_core::contexts::marketplace::{ListNFT, PauseMarketplace};
use marketplace_core::contexts::update_listing::UpdateListingMint;
use marketplace_core::errors::MarketplaceError;
use marketplace_core::pda::listing_address;
use marketplace_core::state::{ListingAccount, MarketplaceConfig};

const NOW: i64 = 1_700_000_000;

fn addr(n: u8) -> Address {
    Address::new([n; 32])
}

fn config(paused: bool) -> MarketplaceConfig {
    MarketplaceConfig {
        authority: addr(90),
        treasury_wallet: addr(91),
        fee_percentage: 250,
        is_paused: paused,
        bump: 254,
    }
}

fn list_ctx() -> ListNFT {
    let mint = addr(10);
    let (listing_key, _) = listing_address(&mint).unwrap();
    ListNFT {
        owner: Wallet { key: addr(1), lamports: 5_000 },
        listing_account: Account { key: listing_key, lamports: 1_500, data: None },
        nft_mint: Mint { key: mint, supply: 1 },
        nft_token: Account {
            key: addr(11),
            lamports: 2_000,
            data: Some(TokenAccount { mint, owner: addr(1), amount: 1 }),
        },
        escrow_token_account: Account { key: addr(12), lamports: 2_000, data: None },
        marketplace_config: config(false),
        clock: Clock { unix_timestamp: NOW },
    }
}

fn listed() -> ListNFT {
    let mut ctx = list_ctx();
    assert_eq!(ctx.list_nft(1_000_000, 3_600), Ok(()));
    ctx
}

fn refused(ctx: ListNFT, price: u64, duration: i64, e: MarketplaceError) {
    let mut after = ctx;
    assert_eq!(after.list_nft(price, duration), Err(e));
    assert_eq!(after, ctx);
}

#[test]
fn listing_locks_the_asset_and_creates_the_listing() {
    let before = list_ctx();
    let ctx = listed();
    let (_, bump) = listing_address(&before.nft_mint.key).unwrap();
    assert_eq!(
        ctx.listing_account.data,
        Some(ListingAccount {
            seller: addr(1),
            nft_mint: addr(10),
            price: 1_000_000,
            token_account: addr(11),
            escrow_token_account: addr(12),
            created_at: NOW,
            expires_at: Some(NOW + 3_600),
            is_active: true,
            bump,
        })
    );
    assert_eq!(
        ctx.escrow_token_account.data,
        Some(TokenAccount { mint: addr(10), owner: before.listing_account.key, amount: 1 })
    );
    assert_eq!(
        ctx.nft_token.data,
        Some(TokenAccount { mint: addr(10), owner: addr(1), amount: 0 })
    );
    assert_eq!(ctx.owner, before.owner);
    assert_eq!(ctx.nft_mint, before.nft_mint);
    assert_eq!(ctx.marketplace_config, before.marketplace_config);
    assert_eq!(ctx.listing_account.key, before.listing_account.key);
    assert_eq!(ctx.listing_account.lamports, 1_500);
    assert_eq!(ctx.escrow_token_account.lamports, 2_000);
}

#[test]
fn listing_accepts_an_empty_escrow_of_its_own() {
    let mut ctx = list_ctx();
    ctx.escrow_token_account.data = Some(TokenAccount {
        mint: addr(10),
        owner: ctx.listing_account.key,
        amount: 0,
    });
    assert_eq!(ctx.list_nft(1, 1), Ok(()));
    assert_eq!(ctx.escrow_token_account.data.unwrap().amount, 1);
    assert_eq!(ctx.listing_account.data.unwrap().expires_at, Some(NOW + 1));
}

#[test]
fn listing_is_refused_while_paused() {
    let mut ctx = list_ctx();
    ctx.marketplace_config = config(true);
    refused(ctx, 1_000_000, 3_600, MarketplaceError::MarketplacePaused);
}

#[test]
fn pause_comes_before_every_other_reason() {
    let mut ctx = list_ctx();
    ctx.marketplace_config = config(true);
    ctx.nft_mint.supply = 2;
    ctx.nft_token.data = None;
    ctx.listing_account.key = addr(77);
    refused(ctx, 0, -1, MarketplaceError::MarketplacePaused);
}

#[test]
fn second_listing_of_an_asset_is_refused() {
    let ctx = listed();
    refused(ctx, 2_000_000, 60, MarketplaceError::AccountAlreadyInitialized);
    let mut again = ctx;
    again.nft_token.data = Some(TokenAccount { mint: addr(10), owner: addr(1), amount: 1 });
    refused(again, 2_000_000, 60, MarketplaceError::AccountAlreadyInitialized);
}

#[test]
fn listing_must_sit_at_the_derived_address() {
    let mut ctx = list_ctx();
    ctx.listing_account.key = addr(77);
    refused(ctx, 1_000_000, 3_600, MarketplaceError::InvalidDerivedAddress);
    let mut other = list_ctx();
    other.listing_account.key = listing_address(&addr(99)).unwrap().0;
    refused(other, 1_000_000, 3_600, MarketplaceError::InvalidDerivedAddress);
}

#[test]
fn list_at_takes_the_derivation_as_given() {
    let mut ctx = list_ctx();
    ctx.listing_account.key = addr(77);
    let mut none = ctx;
    assert_eq!(none.list_at(5, 5, None), Err(MarketplaceError::InvalidDerivedAddress));
    assert_eq!(none, ctx);
    let mut wrong = ctx;
    assert_eq!(
        wrong.list_at(5, 5, Some((addr(78), 3))),
        Err(MarketplaceError::InvalidDerivedAddress)
    );
    assert_eq!(wrong, ctx);
    assert_eq!(ctx.list_at(5, 5, Some((addr(77), 3))), Ok(()));
    assert_eq!(ctx.listing_account.data.unwrap().bump, 3);
    assert_eq!(ctx.escrow_token_account.data.unwrap().owner, addr(77));
}

#[test]
fn listing_needs_a_supply_of_one() {
    for supply in [0u64, 2, u64::MAX] {
        let mut ctx = list_ctx();
        ctx.nft_mint.supply = supply;
        refused(ctx, 1_000_000, 3_600, MarketplaceError::InvalidNFTSupply);
    }
}

#[test]
fn listing_needs_the_owners_custody_account() {
    let mut ctx = list_ctx();
    ctx.nft_token.data = None;
    refused(ctx, 1_000_000, 3_600, MarketplaceError::AccountNotInitialized);

    let mut foreign = list_ctx();
    foreign.nft_token.data = Some(TokenAccount { mint: addr(10), owner: addr(2), amount: 1 });
    refused(foreign, 1_000_000, 3_600, MarketplaceError::InvalidOwner);

    let mut other_asset = list_ctx();
    other_asset.nft_token.data = Some(TokenAccount { mint: addr(20), owner: addr(1), amount: 1 });
    refused(other_asset, 1_000_000, 3_600, MarketplaceError::InvalidOwner);
}

#[test]
fn listing_needs_exactly_one_unit() {
    for amount in [0u64, 2, u64::MAX] {
        let mut ctx = list_ctx();
        ctx.nft_token.data = Some(TokenAccount { mint: addr(10), owner: addr(1), amount });
        refused(ctx, 1_000_000, 3_600, MarketplaceError::InvalidTokenAmount);
    }
}

#[test]
fn listing_needs_an_escrow_of_its_own() {
    let mut same = list_ctx();
    same.escrow_token_account.key = same.nft_token.key;
    refused(same, 1_000_000, 3_600, MarketplaceError::InvalidEscrowAccount);

    let key = list_ctx().listing_account.key;
    let wrong = [
        TokenAccount { mint: addr(20), owner: key, amount: 0 },
        TokenAccount { mint: addr(10), owner: addr(1), amount: 0 },
        TokenAccount { mint: addr(10), owner: key, amount: 1 },
    ];
    for held in wrong {
        let mut ctx = list_ctx();
        ctx.escrow_token_account.data = Some(held);
        refused(ctx, 1_000_000, 3_600, MarketplaceError::InvalidEscrowAccount);
    }
}

#[test]
fn listing_needs_a_positive_price_and_duration() {
    refused(list_ctx(), 0, 3_600, MarketplaceError::InvalidPrice);
    refused(list_ctx(), 0, 0, MarketplaceError::InvalidPrice);
    refused(list_ctx(), 1, 0, MarketplaceError::InvalidDuration);
    refused(list_ctx(), 1, -1, MarketplaceError::InvalidDuration);
    refused(list_ctx(), 1, i64::MIN, MarketplaceError::InvalidDuration);
}

#[test]
fn listing_end_must_fit_the_clock() {
    let mut ctx = list_ctx();
    ctx.clock.unix_timestamp = i64::MAX - 10;
    refused(ctx, 1, 11, MarketplaceError::ArithmeticOverflow);
    assert_eq!(ctx.list_nft(1, 10), Ok(()));
    assert_eq!(ctx.listing_account.data.unwrap().expires_at, Some(i64::MAX));
}

fn update_ctx() -> UpdateListingMint {
    let l = listed();
    UpdateListingMint {
        listing_account: l.listing_account,
        seller: l.owner,
        clock: Clock { unix_timestamp: NOW + 100 },
    }
}

fn update_refused(ctx: UpdateListingMint, price: u64, duration: i64, e: MarketplaceError) {
    let mut after = ctx;
    assert_eq!(after.update_listing(price, duration), Err(e));
    assert_eq!(after, ctx);
}

#[test]
fn update_changes_price_and_end_only() {
    let before = update_ctx();
    let mut ctx = before;
    assert_eq!(ctx.update_listing(2_500_000, 7_200), Ok(()));
    let old = before.listing_account.data.unwrap();
    assert_eq!(
        ctx.listing_account.data,
        Some(ListingAccount { price: 2_500_000, expires_at: Some(NOW + 100 + 7_200), ..old })
    );
    assert_eq!(ctx.listing_account.key, before.listing_account.key);
    assert_eq!(ctx.listing_account.lamports, before.listing_account.lamports);
    assert_eq!(ctx.seller, before.seller);
    assert!(ctx.listing_account.data.unwrap().is_active);
    assert_eq!(ctx.listing_account.data.unwrap().created_at, NOW);
}

#[test]
fn update_is_for_the_seller_of_an_active_listing() {
    let mut stranger = update_ctx();
    stranger.seller.key = addr(2);
    update_refused(stranger, 5, 5, MarketplaceError::InvalidSeller);

    let mut inactive = update_ctx();
    let mut record = inactive.listing_account.data.unwrap();
    record.is_active = false;
    inactive.listing_account.data = Some(record);
    update_refused(inactive, 5, 5, MarketplaceError::ListingNotActive);

    let mut closed = update_ctx();
    closed.listing_account.data = None;
    update_refused(closed, 5, 5, MarketplaceError::ListingNotActive);

    let mut both = update_ctx();
    both.seller.key = addr(2);
    both.listing_account.data = Some(record);
    update_refused(both, 0, 0, MarketplaceError::InvalidSeller);
}

#[test]
fn update_needs_a_positive_price_and_duration() {
    update_refused(update_ctx(), 0, 5, MarketplaceError::InvalidPrice);
    update_refused(update_ctx(), 0, 0, MarketplaceError::InvalidPrice);
    update_refused(update_ctx(), 5, 0, MarketplaceError::InvalidDuration);
    update_refused(update_ctx(), 5, -7, MarketplaceError::InvalidDuration);
    let mut late = update_ctx();
    late.clock.unix_timestamp = i64::MAX;
    update_refused(late, 5, 1, MarketplaceError::ArithmeticOverflow);
}

fn delist_ctx() -> DelistNft {
    let l = listed();
    DelistNft {
        owner: l.owner,
        listing_account: l.listing_account,
        owner_token_account: l.nft_token,
        escrow_token_account: l.escrow_token_account,
    }
}

fn delist_refused(ctx: DelistNft, e: MarketplaceError) {
    let mut after = ctx;
    assert_eq!(after.delist_nft(), Err(e));
    assert_eq!(after, ctx);
}

#[test]
fn delist_returns_the_asset_and_closes_both_accounts() {
    let start = list_ctx();
    let before = delist_ctx();
    let mut ctx = before;
    assert_eq!(ctx.delist_nft(), Ok(()));
    assert_eq!(ctx.owner_token_account, start.nft_token);
    assert_eq!(ctx.listing_account.data, None);
    assert_eq!(ctx.listing_account.lamports, 0);
    assert_eq!(ctx.listing_account.key, before.listing_account.key);
    assert_eq!(ctx.escrow_token_account.data, None);
    assert_eq!(ctx.escrow_token_account.lamports, 0);
    assert_eq!(ctx.owner.key, addr(1));
    assert_eq!(ctx.owner.lamports, 5_000 + 1_500 + 2_000);
}

#[test]
fn delisted_listing_cannot_be_used_again() {
    let mut ctx = delist_ctx();
    assert_eq!(ctx.delist_nft(), Ok(()));
    delist_refused(ctx, MarketplaceError::ListingNotActive);
    let change = UpdateListingMint {
        listing_account: ctx.listing_account,
        seller: ctx.owner,
        clock: Clock { unix_timestamp: NOW },
    };
    update_refused(change, 5, 5, MarketplaceError::ListingNotActive);
}

#[test]
fn asset_can_be_listed_again_after_delisting() {
    let mut back = delist_ctx();
    assert_eq!(back.delist_nft(), Ok(()));
    let mut again = list_ctx();
    again.owner = back.owner;
    again.listing_account = back.listing_account;
    again.nft_token = back.owner_token_account;
    again.escrow_token_account = back.escrow_token_account;
    assert_eq!(again.list_nft(42, 10), Ok(()));
    assert_eq!(again.listing_account.data.unwrap().price, 42);
    assert_eq!(again.escrow_token_account.data.unwrap().amount, 1);
}

#[test]
fn delist_is_for_the_seller_of_an_active_listing() {
    let mut stranger = delist_ctx();
    stranger.owner.key = addr(2);
    delist_refused(stranger, MarketplaceError::InvalidSeller);

    let mut inactive = delist_ctx();
    let mut record = inactive.listing_account.data.unwrap();
    record.is_active = false;
    inactive.listing_account.data = Some(record);
    delist_refused(inactive, MarketplaceError::ListingNotActive);

    let mut closed = delist_ctx();
    closed.listing_account.data = None;
    delist_refused(closed, MarketplaceError::ListingNotActive);
}

#[test]
fn delist_needs_the_sellers_custody_account() {
    let mut missing = delist_ctx();
    missing.owner_token_account.data = None;
    delist_refused(missing, MarketplaceError::AccountNotInitialized);

    let mut foreign = delist_ctx();
    foreign.owner_token_account.data =
        Some(TokenAccount { mint: addr(10), owner: addr(2), amount: 0 });
    delist_refused(foreign, MarketplaceError::InvalidOwner);

    let mut other_asset = delist_ctx();
    other_asset.owner_token_account.data =
        Some(TokenAccount { mint: addr(20), owner: addr(1), amount: 0 });
    delist_refused(other_asset, MarketplaceError::InvalidOwner);
}

#[test]
fn delist_needs_the_escrow_of_the_listing() {
    let mut other = delist_ctx();
    other.escrow_token_account.key = addr(13);
    delist_refused(other, MarketplaceError::InvalidEscrowAccount);

    let mut missing = delist_ctx();
    missing.escrow_token_account.data = None;
    delist_refused(missing, MarketplaceError::InvalidEscrowAccount);

    let key = delist_ctx().listing_account.key;
    let mut other_asset = delist_ctx();
    other_asset.escrow_token_account.data =
        Some(TokenAccount { mint: addr(20), owner: key, amount: 1 });
    delist_refused(other_asset, MarketplaceError::InvalidEscrowAccount);

    let mut not_held_for_listing = delist_ctx();
    not_held_for_listing.escrow_token_account.data =
        Some(TokenAccount { mint: addr(10), owner: addr(1), amount: 1 });
    delist_refused(not_held_for_listing, MarketplaceError::InvalidEscrowAccount);

    for amount in [0u64, 2] {
        let mut ctx = delist_ctx();
        ctx.escrow_token_account.data = Some(TokenAccount { mint: addr(10), owner: key, amount });
        delist_refused(ctx, MarketplaceError::InvalidOwner);
    }
}

#[test]
fn delist_is_refused_where_a_balance_would_overflow() {
    let mut rich = delist_ctx();
    rich.owner.lamports = u64::MAX - 3_499;
    delist_refused(rich, MarketplaceError::ArithmeticOverflow);
    rich.owner.lamports = u64::MAX - 3_500;
    assert_eq!(rich.delist_nft(), Ok(()));
    assert_eq!(rich.owner.lamports, u64::MAX);

    let mut full = delist_ctx();
    full.owner_token_account.data =
        Some(TokenAccount { mint: addr(10), owner: addr(1), amount: u64::MAX });
    delist_refused(full, MarketplaceError::ArithmeticOverflow);
}

#[test]
fn pause_does_not_stop_update_or_delist() {
    let l = listed();
    let mut pause = PauseMarketplace {
        config: l.marketplace_config,
        authority: Wallet { key: addr(90), lamports: 0 },
    };
    assert_eq!(pause.pause(), Ok(()));
    assert!(pause.config.is_paused);

    let mut relist = list_ctx();
    relist.marketplace_config = pause.config;
    assert_eq!(relist.list_nft(1, 1), Err(MarketplaceError::MarketplacePaused));

    let mut change = UpdateListingMint {
        listing_account: l.listing_account,
        seller: l.owner,
        clock: Clock { unix_timestamp: NOW + 1 },
    };
    assert_eq!(change.update_listing(7, 7), Ok(()));

    let mut back = DelistNft {
        owner: l.owner,
        listing_account: change.listing_account,
        owner_token_account: l.nft_token,
        escrow_token_account: l.escrow_token_account,
    };
    assert_eq!(back.delist_nft(), Ok(()));
    assert_eq!(back.owner_token_account.data.unwrap().amount, 1);
}

#[test]
fn entry_points_do_what_the_contexts_do() {
    let mut by_entry = list_ctx();
    assert_eq!(marketplace_core::list_nft(&mut by_entry, 1_000_000, 3_600), Ok(()));
    assert_eq!(by_entry, listed());
    let mut paused = list_ctx();
    paused.marketplace_config = config(true);
    assert_eq!(
        marketplace_core::list_nft(&mut paused, 1_000_000, 3_600),
        Err(MarketplaceError::MarketplacePaused)
    );

    let mut change = update_ctx();
    let mut change_by_entry = update_ctx();
    assert_eq!(change.update_listing(9, 9), Ok(()));
    assert_eq!(marketplace_core::update_listing(&mut change_by_entry, 9, 9), Ok(()));
    assert_eq!(change, change_by_entry);

    let mut back = delist_ctx();
    let mut back_by_entry = delist_ctx();
    assert_eq!(back.delist_nft(), Ok(()));
    assert_eq!(marketplace_core::delist_nft(&mut back_by_entry), Ok(()));
    assert_eq!(back, back_by_entry);
}

#[test]
fn default_listing_names_nobody_and_is_not_active() {
    let listing = ListingAccount::default();
    let nobody = Address::default();
    assert_eq!(nobody.bytes, [0u8; 32]);
    assert_eq!(
        listing,
        ListingAccount {
            seller: nobody,
            nft_mint: nobody,
            price: 0,
            token_account: nobody,
            escrow_token_account: nobody,
            created_at: 0,
            expires_at: None,
            is_active: false,
            bump: 0,
        }
    );
}
