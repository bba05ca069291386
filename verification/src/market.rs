//! The escrow marketplace: a listing table and the purchase guard.
//!
//! `sell` pulls `amount` units from the seller into the marketplace's own
//! ledger account by delegated transfer — so the seller must have approved the
//! marketplace as spender first — and then records the listed unit price for
//! that token identity, overwriting any earlier listing. `buy` looks the price
//! up and applies the payment guard, which deliberately reads as it does:
//! it rejects an attached payment that *exceeds* `price * amount` — it guards
//! against overpayment, not underpayment — accepts one that does not, and
//! moves no tokens and no funds either way.
use vstd::prelude::*;

use crate::errors::Error;
use crate::ledger::transfer_from_post;
use crate::token::BananaToken;
use std::collections::HashMap;

verus! {

broadcast use vstd::std_specs::hash::group_hash_axioms;

/// The marketplace module: its own ledger account (the escrow custodian) and
/// the listing table from token identity to unit price.
pub struct MonkeyShow {
    /// The marketplace's own account in the ledger; escrowed units sit here.
    pub account: u64,
    /// Active listings: token identity to native-currency price per unit.
    pub listings: HashMap<u64, u128>,
}

/// Everything `sell` promises: the delegated escrow transfer and the listing
/// write stand or fall together. A failed transfer surfaces the ledger's error
/// and leaves the marketplace and the token untouched; on success the units
/// sit in the marketplace's account and the listing holds the new price.
pub open spec fn sell_post(
    pre_market: MonkeyShow,
    post_market: MonkeyShow,
    pre_token: BananaToken,
    post_token: BananaToken,
    token_addr: u64,
    caller: u64,
    amount: u128,
    price: u128,
    r: Result<(), Error>,
) -> bool {
    if pre_token.token.spec_allowance(caller, pre_market.account) < amount {
        &&& r == Err::<(), Error>(Error::InsufficientAllowance)
        &&& post_market == pre_market
        &&& post_token == pre_token
    } else if pre_token.token.spec_balance_of(caller) < amount {
        &&& r == Err::<(), Error>(Error::InsufficientBalance)
        &&& post_market == pre_market
        &&& post_token == pre_token
    } else {
        &&& r == Ok::<(), Error>(())
        &&& transfer_from_post(
            pre_token.token,
            post_token.token,
            pre_market.account,
            caller,
            pre_market.account,
            amount,
            Ok(()),
        )
        &&& post_token.value == pre_token.value
        &&& post_token.owner == pre_token.owner
        &&& post_market.account == pre_market.account
        &&& post_market.spec_listing(token_addr) == Some(price)
        &&& forall|t: u64|
            t != token_addr ==> post_market.spec_listing(t) == pre_market.spec_listing(t)
    }
}

/// Everything `buy` promises: `ListingNotFound` when the token has no listing;
/// otherwise the overpayment guard — `InsufficientPayment` exactly when the
/// attached payment exceeds `price * amount`, success otherwise. No state
/// moves in any case.
pub open spec fn buy_post(
    market: MonkeyShow,
    token_addr: u64,
    amount: u128,
    attached: u128,
    r: Result<(), Error>,
) -> bool {
    match market.spec_listing(token_addr) {
        None => r == Err::<(), Error>(Error::ListingNotFound),
        Some(price) => if attached > price * amount {
            r == Err::<(), Error>(Error::InsufficientPayment)
        } else {
            r == Ok::<(), Error>(())
        },
    }
}

impl MonkeyShow {
    /// The listed unit price for `token_addr`, if that token has a listing.
    pub open spec fn spec_listing(self, token_addr: u64) -> Option<u128> {
        if self.listings@.contains_key(token_addr) {
            Some(self.listings@[token_addr])
        } else {
            None
        }
    }

    /// A fresh marketplace with no listings, whose escrow account is `account`.
    pub fn new(account: u64) -> (r: MonkeyShow)
        ensures
            r.account == account,
            forall|t: u64| r.spec_listing(t) == Option::<u128>::None,
    {
        MonkeyShow { account, listings: HashMap::new() }
    }

    /// Reads the active listing for `token_addr`.
    pub fn listing(&self, token_addr: u64) -> (r: Option<u128>)
        ensures
            r == self.spec_listing(token_addr),
    {
        match self.listings.get(&token_addr) {
            Some(p) => Some(*p),
            None => None,
        }
    }

    /// Lists `amount` units of the token at `token_addr` for `price` per unit:
    /// first escrows the units by delegated transfer from `caller` into the
    /// marketplace's own account, then records the price. If the transfer
    /// fails, no listing is written.
    pub fn sell(
        &mut self,
        token: &mut BananaToken,
        token_addr: u64,
        caller: u64,
        amount: u128,
        price: u128,
    ) -> (r: Result<(), Error>)
        requires
            old(token).token.wf(),
        ensures
            final(token).token.wf(),
            sell_post(
                *old(self),
                *final(self),
                *old(token),
                *final(token),
                token_addr,
                caller,
                amount,
                price,
                r,
            ),
    {
        let marketplace = self.account;
        match token.transfer_from(marketplace, caller, marketplace, amount) {
            Err(e) => Err(e),
            Ok(()) => {
                self.listings.insert(token_addr, price);
                Ok(())
            },
        }
    }

    /// Purchase guard for `amount` units of the token at `token_addr`, with
    /// `attached` native currency bound to the call. Fails with
    /// `ListingNotFound` when no listing exists and with
    /// `InsufficientPayment` when the attached payment exceeds
    /// `price * amount`; otherwise succeeds. Changes nothing either way: the
    /// purchase path validates the payment but moves no escrowed tokens to
    /// the buyer and forwards no funds to the seller.
    pub fn buy(&mut self, token_addr: u64, amount: u128, attached: u128) -> (r: Result<(), Error>)
        requires
            old(self).spec_listing(token_addr) matches Some(price) ==> price * amount
                <= u128::MAX,
        ensures
            *final(self) == *old(self),
            buy_post(*old(self), token_addr, amount, attached, r),
    {
        let price = match self.listings.get(&token_addr) {
            Some(p) => *p,
            None => {
                return Err(Error::ListingNotFound);
            },
        };
        let cost = price * amount;
        if attached > cost {
            return Err(Error::InsufficientPayment);
        }
        Ok(())
    }
}

} // verus!
