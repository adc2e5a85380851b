//! The coins of a token sale and their price: a fixed price in the private
//! sale, a price that rises with every coin sold in the public sale.

use vstd::prelude::*;
use crate::decimal::{checked_mul_floor, checked_ratio_floor, Decimal};

verus! {

/// Prices are computed in millionths of the price unit.
pub const PRECISION_MULTIPLIER: u128 = 1_000_000;

/// The coins of the private sale.
#[derive(Clone, Copy, Debug, PartialEq, Eq, Structural)]
pub struct PrivateSaleCoinSupply {
    pub total_amount: u128,
    pub coins_sold: u128,
    pub coin_price: u128,
}

/// The coins of the public sale, without what the private sale left.
#[derive(Clone, Copy, Debug, PartialEq, Eq, Structural)]
pub struct PublicSaleCoinSupplyData {
    pub total_amount: u128,
    pub coins_sold: u128,
    pub coin_price_start: u128,
    pub coin_price_end: u128,
}

/// The coins of the public sale: its own, and those that the private sale
/// left.
#[derive(Clone, Copy, Debug, PartialEq, Eq, Structural)]
pub struct PublicSaleCoinSupply {
    pub inherited: u128,
    pub data: PublicSaleCoinSupplyData,
}

impl PrivateSaleCoinSupply {
    /// A supply of which nothing is sold.
    pub fn new(total_amount: u128, coin_price: u128) -> (supply: Self)
        ensures
            supply == (PrivateSaleCoinSupply { total_amount, coins_sold: 0, coin_price }),
    {
        Self { total_amount, coins_sold: 0, coin_price }
    }

    /// Counts `amount_sold` coins as sold.
    pub fn record_sale(&mut self, amount_sold: u128)
        requires
            old(self).coins_sold + amount_sold <= u128::MAX,
        ensures
            *final(self) == (PrivateSaleCoinSupply {
                coins_sold: (old(self).coins_sold + amount_sold) as u128,
                ..*old(self)
            }),
    {
        self.coins_sold = self.coins_sold + amount_sold;
    }

    /// The coins not yet sold, or `None` where more are sold than there are.
    pub fn remains(&self) -> (left: Option<u128>)
        ensures
            left == (if self.coins_sold <= self.total_amount {
                Some((self.total_amount - self.coins_sold) as u128)
            } else {
                None
            }),
    {
        self.total_amount.checked_sub(self.coins_sold)
    }

    /// The price of one coin.
    pub fn price(&self) -> (price: u128)
        ensures
            price == self.coin_price,
    {
        self.coin_price
    }

    /// The price of `amount` coins, or `None` where it exceeds 128 bits.
    pub fn price_for_amount(&self, amount: u128) -> (price: Option<u128>)
        ensures
            price == (if self.coin_price * amount <= u128::MAX {
                Some((self.coin_price * amount) as u128)
            } else {
                None
            }),
    {
        self.coin_price.checked_mul(amount)
    }
}

impl PublicSaleCoinSupply {
    /// The price, in millionths, after `coins_sold` coins: the start price
    /// plus the share of the way to the end price that these coins are of
    /// all coins, the share rounded down to 18 digits and the product rounded
    /// down. `None` where the end price is below the start price, where there
    /// are no coins, or where a step leaves the 128-bit range.
    pub open spec fn spec_price_at(&self, coins_sold: u128) -> Option<u128> {
        let start = self.data.coin_price_start * PRECISION_MULTIPLIER;
        let rise = (self.data.coin_price_end - self.data.coin_price_start) * PRECISION_MULTIPLIER;
        let coins = self.data.total_amount + self.inherited;
        if self.data.coin_price_end < self.data.coin_price_start || start > u128::MAX || rise
            > u128::MAX || coins > u128::MAX {
            None
        } else {
            match checked_ratio_floor(coins_sold, coins as u128) {
                None => None,
                Some(share) => match checked_mul_floor(rise as u128, Decimal { atomics: share }) {
                    None => None,
                    Some(risen) => if start + risen <= u128::MAX {
                        Some((start + risen) as u128)
                    } else {
                        None
                    },
                },
            }
        }
    }

    /// The price of `amount` coins: the mean of the prices before and after
    /// their sale, times the amount, in whole price units, each step rounded
    /// down. `None` where a price is none or a step leaves the 128-bit range.
    pub open spec fn spec_price_for_amount(&self, amount: u128) -> Option<u128> {
        if self.data.coins_sold + amount > u128::MAX {
            None
        } else {
            match (
                self.spec_price_at(self.data.coins_sold),
                self.spec_price_at((self.data.coins_sold + amount) as u128),
            ) {
                (Some(before), Some(after)) => if before + after > u128::MAX {
                    None
                } else {
                    match checked_ratio_floor((before + after) as u128, 2) {
                        None => None,
                        Some(mean) => match checked_mul_floor(amount, Decimal { atomics: mean }) {
                            None => None,
                            Some(price) => Some(price / PRECISION_MULTIPLIER),
                        },
                    }
                },
                _ => None,
            }
        }
    }

    /// A supply of which nothing is sold, with nothing left by the private
    /// sale.
    pub fn from_data(data: PublicSaleCoinSupplyData) -> (supply: Self)
        ensures
            supply == (PublicSaleCoinSupply { inherited: 0, data }),
    {
        Self { inherited: 0, data }
    }

    /// A supply of which nothing is sold.
    pub fn new(total_amount: u128, coin_price_start: u128, coin_price_end: u128) -> (supply: Self)
        ensures
            supply == (PublicSaleCoinSupply {
                inherited: 0,
                data: PublicSaleCoinSupplyData {
                    total_amount,
                    coins_sold: 0,
                    coin_price_start,
                    coin_price_end,
                },
            }),
    {
        Self {
            inherited: 0,
            data: PublicSaleCoinSupplyData {
                total_amount,
                coins_sold: 0,
                coin_price_start,
                coin_price_end,
            },
        }
    }

    /// Takes over what the private sale has left.
    pub fn inherit_private(&mut self, private_sale: &PrivateSaleCoinSupply)
        requires
            private_sale.coins_sold <= private_sale.total_amount,
        ensures
            *final(self) == (PublicSaleCoinSupply {
                inherited: (private_sale.total_amount - private_sale.coins_sold) as u128,
                ..*old(self)
            }),
    {
        self.inherited = private_sale.total_amount - private_sale.coins_sold;
    }

    /// The price, in millionths, after `coins_sold` coins.
    pub fn price_at(&self, coins_sold: u128) -> (price: Option<u128>)
        ensures
            price == self.spec_price_at(coins_sold),
    {
        let rise_units = match self.data.coin_price_end.checked_sub(self.data.coin_price_start) {
            Some(r) => r,
            None => { return None; },
        };
        let start = match self.data.coin_price_start.checked_mul(PRECISION_MULTIPLIER) {
            Some(s) => s,
            None => { return None; },
        };
        let rise = match rise_units.checked_mul(PRECISION_MULTIPLIER) {
            Some(r) => r,
            None => { return None; },
        };
        let coins = match self.data.total_amount.checked_add(self.inherited) {
            Some(c) => c,
            None => { return None; },
        };
        let share = match Decimal::checked_from_ratio(coins_sold, coins) {
            Some(s) => s,
            None => { return None; },
        };
        let risen = match share.checked_mul_uint(rise) {
            Some(r) => r,
            None => { return None; },
        };
        start.checked_add(risen)
    }

    /// Counts `amount_sold` coins as sold.
    pub fn record_sale(&mut self, amount_sold: u128)
        requires
            old(self).data.coins_sold + amount_sold <= u128::MAX,
        ensures
            *final(self) == (PublicSaleCoinSupply {
                data: PublicSaleCoinSupplyData {
                    coins_sold: (old(self).data.coins_sold + amount_sold) as u128,
                    ..old(self).data
                },
                ..*old(self)
            }),
    {
        self.data.coins_sold = self.data.coins_sold + amount_sold;
    }

    /// The coins not yet sold, or `None` where more are sold than there are
    /// or their number exceeds 128 bits.
    pub fn remains(&self) -> (left: Option<u128>)
        ensures
            left == (if self.data.total_amount + self.inherited <= u128::MAX
                && self.data.coins_sold <= self.data.total_amount + self.inherited {
                Some((self.data.total_amount + self.inherited - self.data.coins_sold) as u128)
            } else {
                None
            }),
    {
        match self.data.total_amount.checked_add(self.inherited) {
            Some(coins) => coins.checked_sub(self.data.coins_sold),
            None => None,
        }
    }

    /// The price of the next coin, in whole price units.
    pub fn price(&self) -> (price: Option<u128>)
        ensures
            price == (match self.spec_price_at(self.data.coins_sold) {
                Some(p) => Some(p / PRECISION_MULTIPLIER),
                None => None,
            }),
    {
        match self.price_at(self.data.coins_sold) {
            Some(p) => Some(p / PRECISION_MULTIPLIER),
            None => None,
        }
    }

    /// The price of the next `amount` coins, in whole price units.
    pub fn price_for_amount(&self, amount: u128) -> (price: Option<u128>)
        ensures
            price == self.spec_price_for_amount(amount),
    {
        let sold_after = match self.data.coins_sold.checked_add(amount) {
            Some(s) => s,
            None => { return None; },
        };
        let before = match self.price_at(self.data.coins_sold) {
            Some(p) => p,
            None => { return None; },
        };
        let after = match self.price_at(sold_after) {
            Some(p) => p,
            None => { return None; },
        };
        let sum = match before.checked_add(after) {
            Some(s) => s,
            None => { return None; },
        };
        let mean = match Decimal::checked_from_ratio(sum, 2) {
            Some(m) => m,
            None => { return None; },
        };
        match mean.checked_mul_uint(amount) {
            Some(price) => Some(price / PRECISION_MULTIPLIER),
            None => None,
        }
    }
}

} // verus!
