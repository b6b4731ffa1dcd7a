//! How the price of a purchase is split between seller, treasury and creator.
//!
//! All amounts are integers in the smallest currency unit. A rate is given in
//! basis points, 10000 of which are the whole price; a share is rounded down.

use vstd::prelude::*;
use crate::errors::MarketplaceError;

verus! {

/// The part of `price` that a rate of `rate` basis points takes, rounded down.
pub open spec fn share_of(price: u64, rate: u16) -> nat {
    (price as nat * rate as nat) / 10000
}

/// Who bears the marketplace fee, and whether a royalty is paid.
#[derive(Clone, Copy, Debug, PartialEq, Eq, Structural)]
pub enum SettlementPolicy {
    /// The buyer pays the price; the fee is taken out of what the seller gets.
    SellerPaysFee,
    /// The buyer pays the price, the fee and a royalty on top; the seller gets
    /// the whole price and the creator the royalty.
    BuyerPaysFeeAndRoyalty { royalty_percentage: u16 },
}

/// The amounts of one purchase: what the buyer pays in all, and what the
/// seller, the treasury and the creator each receive.
#[derive(Clone, Copy, Debug, PartialEq, Eq, Structural)]
pub struct Settlement {
    pub price: u64,
    pub fee_amount: u64,
    pub royalty_amount: u64,
    pub seller_amount: u64,
    pub total_amount: u64,
}

/// The settlement of a purchase at `price` under a fee rate and a policy, or
/// `None` where an amount leaves the range of the currency unit: a fee above
/// the price that the seller would have to bear, or a total above `u64::MAX`.
pub open spec fn settlement_of(price: u64, fee_percentage: u16, policy: SettlementPolicy) -> Option<
    Settlement,
> {
    let fee = share_of(price, fee_percentage);
    match policy {
        SettlementPolicy::SellerPaysFee => {
            if fee <= price {
                Some(
                    Settlement {
                        price,
                        fee_amount: fee as u64,
                        royalty_amount: 0,
                        seller_amount: (price - fee) as u64,
                        total_amount: price,
                    },
                )
            } else {
                None
            }
        },
        SettlementPolicy::BuyerPaysFeeAndRoyalty { royalty_percentage } => {
            let royalty = share_of(price, royalty_percentage);
            if price + fee + royalty <= u64::MAX {
                Some(
                    Settlement {
                        price,
                        fee_amount: fee as u64,
                        royalty_amount: royalty as u64,
                        seller_amount: price,
                        total_amount: (price + fee + royalty) as u64,
                    },
                )
            } else {
                None
            }
        },
    }
}

/// A share never exceeds the price while the rate is at most 10000 basis
/// points, and it is never negative.
pub proof fn lemma_share_bounds(price: u64, rate: u16)
    requires
        rate <= 10000,
    ensures
        0 <= share_of(price, rate) <= price,
{
    assert((price as nat * rate as nat) / 10000 <= price as nat) by (nonlinear_arith)
        requires
            rate <= 10000,
    ;
}

/// A higher rate never takes a smaller share of the same price.
pub proof fn lemma_share_monotonic(price: u64, low: u16, high: u16)
    requires
        low <= high,
    ensures
        share_of(price, low) <= share_of(price, high),
{
    assert((price as nat * low as nat) / 10000 <= (price as nat * high as nat) / 10000)
        by (nonlinear_arith)
        requires
            low <= high,
    ;
}

/// What the buyer pays is what seller, treasury and creator receive together:
/// a settlement neither creates nor loses funds.
pub proof fn lemma_settlement_conserves(price: u64, fee_percentage: u16, policy: SettlementPolicy)
    requires
        settlement_of(price, fee_percentage, policy) is Some,
    ensures
        ({
            let s = settlement_of(price, fee_percentage, policy)->0;
            &&& s.total_amount == s.seller_amount + s.fee_amount + s.royalty_amount
            &&& s.price == price
            &&& s.fee_amount == share_of(price, fee_percentage)
        }),
{
}

/// While the fee rate is at most 10000 basis points and the seller bears the
/// fee, every price can be settled, and the fee is at most the price.
pub proof fn lemma_seller_pays_always_settles(price: u64, fee_percentage: u16)
    requires
        fee_percentage <= 10000,
    ensures
        settlement_of(price, fee_percentage, SettlementPolicy::SellerPaysFee) is Some,
        settlement_of(price, fee_percentage, SettlementPolicy::SellerPaysFee)->0.fee_amount
            <= price,
{
    lemma_share_bounds(price, fee_percentage);
}

/// The share of `price` at `rate` basis points, computed in 128 bits so that
/// the product cannot overflow, and refused where it does not fit 64 bits.
pub fn compute_share(price: u64, rate: u16) -> (r: Result<u64, MarketplaceError>)
    ensures
        match r {
            Ok(share) => share == share_of(price, rate),
            Err(e) => e == MarketplaceError::ArithmeticOverflow && share_of(price, rate) > u64::MAX,
        },
        rate <= 10000 ==> r is Ok && 0 <= r->Ok_0 <= price,
{
    proof {
        if rate <= 10000 {
            lemma_share_bounds(price, rate);
        }
    }
    assert(price as nat * rate as nat <= 0xffff_ffff_ffff_ffff * 0xffff) by (nonlinear_arith)
        requires
            price <= 0xffff_ffff_ffff_ffff,
            rate <= 0xffff,
    ;
    let product: u128 = (price as u128) * (rate as u128);
    let share: u128 = product / 10000;
    if share > u64::MAX as u128 {
        Err(MarketplaceError::ArithmeticOverflow)
    } else {
        Ok(share as u64)
    }
}

/// The amounts of a purchase at `price` under the given fee rate and policy.
/// Fails with `ArithmeticOverflow` exactly where `settlement_of` has none.
pub fn compute_settlement(price: u64, fee_percentage: u16, policy: SettlementPolicy) -> (r: Result<
    Settlement,
    MarketplaceError,
>)
    ensures
        match settlement_of(price, fee_percentage, policy) {
            Some(s) => r == Ok::<Settlement, MarketplaceError>(s),
            None => r == Err::<Settlement, MarketplaceError>(MarketplaceError::ArithmeticOverflow),
        },
        r matches Ok(s) ==> s.total_amount == s.seller_amount + s.fee_amount + s.royalty_amount,
        fee_percentage <= 10000 && policy == SettlementPolicy::SellerPaysFee ==> r is Ok,
        fee_percentage <= 10000 ==> (r matches Ok(s) ==> s.fee_amount <= price),
{
    proof {
        if fee_percentage <= 10000 {
            lemma_share_bounds(price, fee_percentage);
        }
    }
    let fee_amount = match compute_share(price, fee_percentage) {
        Ok(fee) => fee,
        Err(_) => {
            return Err(MarketplaceError::ArithmeticOverflow);
        },
    };
    match policy {
        SettlementPolicy::SellerPaysFee => {
            match price.checked_sub(fee_amount) {
                Some(seller_amount) => Ok(
                    Settlement {
                        price,
                        fee_amount,
                        royalty_amount: 0,
                        seller_amount,
                        total_amount: price,
                    },
                ),
                None => Err(MarketplaceError::ArithmeticOverflow),
            }
        },
        SettlementPolicy::BuyerPaysFeeAndRoyalty { royalty_percentage } => {
            let royalty_amount = match compute_share(price, royalty_percentage) {
                Ok(royalty) => royalty,
                Err(_) => {
                    return Err(MarketplaceError::ArithmeticOverflow);
                },
            };
            let with_fee = match price.checked_add(fee_amount) {
                Some(sum) => sum,
                None => {
                    return Err(MarketplaceError::ArithmeticOverflow);
                },
            };
            match with_fee.checked_add(royalty_amount) {
                Some(total_amount) => Ok(
                    Settlement {
                        price,
                        fee_amount,
                        royalty_amount,
                        seller_amount: price,
                        total_amount,
                    },
                ),
                None => Err(MarketplaceError::ArithmeticOverflow),
            }
        },
    }
}

} // verus!
