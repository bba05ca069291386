//! The deployable token module: a ledger plus its fixed initialization.
//!
//! `BananaToken` composes the ledger with a stored flag and an owner record.
//! Its one-time `init` mints the fixed supply to the initializing caller and
//! pre-approves one designated contract for the maximum allowance; every other
//! operation forwards to the ledger with the caller as the implicit
//! `from` / `owner` / `spender`.
use vstd::prelude::*;

use crate::errors::Error;
use crate::ledger::Ledger;
use crate::ledger::approve_post;
use crate::ledger::transfer_from_post;
use crate::ledger::transfer_post;

verus! {

/// The token module: a stored flag, the ledger it owns, and the owner account
/// recorded at initialization (`None` until then).
pub struct BananaToken {
    /// A stored flag, set to `false` at initialization.
    pub value: bool,
    /// The token ledger this module owns.
    pub token: Ledger,
    /// The account that initialized the module, once `init` has run.
    pub owner: Option<u64>,
}

impl BananaToken {
    /// A fresh, uninitialized token module.
    pub fn new() -> (r: BananaToken)
        ensures
            r.token.wf(),
            !r.token.initialized,
            r.owner == Option::<u64>::None,
            forall|a: u64| r.token.spec_balance_of(a) == 0,
            forall|o: u64, s: u64| r.token.spec_allowance(o, s) == 0,
    {
        BananaToken { value: false, token: Ledger::new(), owner: None }
    }

    /// One-time constructor: clears the stored flag, mints 1,000,000 units of
    /// "BananaToken" ("BNT", 18 decimals) to `caller`, grants
    /// `approved_contract` the maximum allowance from `caller`, and records
    /// `caller` as owner. A second call fails with `AlreadyInitialized` and
    /// changes nothing.
    pub fn init(&mut self, caller: u64, approved_contract: u64) -> (r: Result<(), Error>)
        ensures
            old(self).token.initialized ==> r == Err::<(), Error>(Error::AlreadyInitialized)
                && *final(self) == *old(self),
            !old(self).token.initialized ==> {
                &&& r == Ok::<(), Error>(())
                &&& final(self).token.wf()
                &&& !final(self).value
                &&& final(self).owner == Some(caller)
                &&& final(self).token.initialized
                &&& final(self).token.token_name@ == "BananaToken"@
                &&& final(self).token.token_symbol@ == "BNT"@
                &&& final(self).token.token_decimals == 18
                &&& final(self).token.supply == 1000000u128
                &&& final(self).token.spec_balance_of(caller) == 1000000u128
                &&& forall|a: u64| a != caller ==> final(self).token.spec_balance_of(a) == 0
                &&& final(self).token.spec_allowance(caller, approved_contract) == u128::MAX
                &&& forall|o: u64, s: u64|
                    !(o == caller && s == approved_contract) ==> final(self).token.spec_allowance(
                        o,
                        s,
                    ) == 0
            },
    {
        if self.token.initialized {
            return Err(Error::AlreadyInitialized);
        }
        self.value = false;
        let _ = self.token.initialize("BananaToken", "BNT", 18, 1000000, caller);
        let ghost minted = self.token;
        self.token.approve(caller, approved_contract, u128::MAX);
        proof {
            assert forall|a: u64| a != caller implies self.token.spec_balance_of(a) == 0 by {
                assert(minted.spec_balance_of(a) == 0);
                assert(self.token.balances@ == minted.balances@);
            }
        }
        self.owner = Some(caller);
        Ok(())
    }

    /// Moves `amount` units from `caller` to `recipient` (see `Ledger::transfer`).
    pub fn transfer(&mut self, caller: u64, recipient: u64, amount: u128) -> (r: Result<(), Error>)
        requires
            old(self).token.wf(),
        ensures
            final(self).token.wf(),
            transfer_post(old(self).token, final(self).token, caller, recipient, amount, r),
            final(self).value == old(self).value,
            final(self).owner == old(self).owner,
    {
        self.token.transfer(caller, recipient, amount)
    }

    /// Delegated transfer with `caller` as the spender
    /// (see `Ledger::transfer_from`).
    pub fn transfer_from(
        &mut self,
        caller: u64,
        owner: u64,
        recipient: u64,
        amount: u128,
    ) -> (r: Result<(), Error>)
        requires
            old(self).token.wf(),
        ensures
            final(self).token.wf(),
            transfer_from_post(
                old(self).token,
                final(self).token,
                caller,
                owner,
                recipient,
                amount,
                r,
            ),
            final(self).value == old(self).value,
            final(self).owner == old(self).owner,
    {
        self.token.transfer_from(caller, owner, recipient, amount)
    }

    /// Sets the allowance `caller` grants `spender` to exactly `amount`
    /// (see `Ledger::approve`).
    pub fn approve(&mut self, caller: u64, spender: u64, amount: u128)
        ensures
            approve_post(old(self).token, final(self).token, caller, spender, amount),
            old(self).token.wf() ==> final(self).token.wf(),
            final(self).value == old(self).value,
            final(self).owner == old(self).owner,
    {
        self.token.approve(caller, spender, amount)
    }

    /// Reads the token name.
    pub fn name(&self) -> (r: String)
        ensures
            r@ == self.token.token_name@,
    {
        self.token.name()
    }

    /// Reads the ticker symbol.
    pub fn symbol(&self) -> (r: String)
        ensures
            r@ == self.token.token_symbol@,
    {
        self.token.symbol()
    }

    /// Reads the display precision.
    pub fn decimals(&self) -> (r: u8)
        ensures
            r == self.token.token_decimals,
    {
        self.token.decimals()
    }

    /// Reads the total supply.
    pub fn total_supply(&self) -> (r: u128)
        ensures
            r == self.token.supply,
    {
        self.token.total_supply()
    }

    /// Reads the balance of `account`.
    pub fn balance_of(&self, account: u64) -> (r: u128)
        ensures
            r == self.token.spec_balance_of(account),
    {
        self.token.balance_of(account)
    }

    /// Reads the allowance `owner` has granted `spender`.
    pub fn allowance(&self, owner: u64, spender: u64) -> (r: u128)
        ensures
            r == self.token.spec_allowance(owner, spender),
    {
        self.token.allowance(owner, spender)
    }
}

} // verus!
